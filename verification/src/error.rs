use vstd::prelude::*;

verus! {

/// Why the packets a mock server received do not meet the registered mock.
#[derive(Debug, PartialEq, Eq)]
pub enum VerificationError {
    /// The number of packets received differs from the number expected.
    InvalidPacketsReceived { expected: usize, found: usize },
    /// A packet was rejected by a matcher; the text names the matcher's type.
    InvalidPacketType(String),
    /// The server's shared state could not be read.
    InvalidMockState,
}

/// The character of a decimal digit.
pub open spec fn digit_char(d: nat) -> char {
    if d == 0 {
        '0'
    } else if d == 1 {
        '1'
    } else if d == 2 {
        '2'
    } else if d == 3 {
        '3'
    } else if d == 4 {
        '4'
    } else if d == 5 {
        '5'
    } else if d == 6 {
        '6'
    } else if d == 7 {
        '7'
    } else if d == 8 {
        '8'
    } else {
        '9'
    }
}

/// The decimal notation of `n`, without leading zeros.
pub open spec fn decimal(n: nat) -> Seq<char>
    decreases n,
{
    if n < 10 {
        seq![digit_char(n)]
    } else {
        decimal(n / 10).push(digit_char(n % 10))
    }
}

impl VerificationError {
    /// The human-readable text of the error.
    pub open spec fn spec_message(&self) -> Seq<char> {
        match self {
            VerificationError::InvalidPacketsReceived { expected, found } => "invalid number packets received (expected "@
                + decimal(*expected as nat) + ", found "@ + decimal(*found as nat) + ")"@,
            VerificationError::InvalidPacketType(name) => "invalid `"@ + name@ + "` packet received"@,
            VerificationError::InvalidMockState => "invalid mock state"@,
        }
    }

    /// Renders the error as text, as its `Display` form reads.
    pub fn message(&self) -> (text: String)
        ensures
            text@ == self.spec_message(),
    {
        match self {
            VerificationError::InvalidPacketsReceived { expected, found } => {
                let mut text = String::from_str("invalid number packets received (expected ");
                append_decimal(&mut text, *expected);
                text.append(", found ");
                append_decimal(&mut text, *found);
                text.append(")");
                text
            },
            VerificationError::InvalidPacketType(name) => {
                let mut text = String::from_str("invalid `");
                text.append(name.as_str());
                text.append("` packet received");
                text
            },
            VerificationError::InvalidMockState => String::from_str("invalid mock state"),
        }
    }
}

/// The one-character text of the decimal digit `d`.
fn digit_str(d: usize) -> (s: &'static str)
    requires
        d < 10,
    ensures
        s@ == seq![digit_char(d as nat)],
{
    proof {
        reveal_strlit("0");
        reveal_strlit("1");
        reveal_strlit("2");
        reveal_strlit("3");
        reveal_strlit("4");
        reveal_strlit("5");
        reveal_strlit("6");
        reveal_strlit("7");
        reveal_strlit("8");
        reveal_strlit("9");
    }
    match d {
        0 => "0",
        1 => "1",
        2 => "2",
        3 => "3",
        4 => "4",
        5 => "5",
        6 => "6",
        7 => "7",
        8 => "8",
        _ => "9",
    }
}

/// Appends the decimal notation of `n` to `text`.
pub fn append_decimal(text: &mut String, n: usize)
    ensures
        final(text)@ == old(text)@ + decimal(n as nat),
    decreases n,
{
    if n >= 10 {
        append_decimal(text, n / 10);
    }
    let ghost before = text@;
    text.append(digit_str(n % 10));
    proof {
        if n >= 10 {
            assert(old(text)@ + decimal(n as nat) =~= before + seq![digit_char((n % 10) as nat)]);
        } else {
            assert(old(text)@ + decimal(n as nat) =~= before + seq![digit_char(n as nat)]);
        }
    }
}

} // verus!
