//! Errors reported while packets and transactions are put together.
//!
//! Every error carries a numeric code. The thousands digit of a code names the
//! family it belongs to, and each family has a table that turns a code into a
//! short description.

use vstd::prelude::*;
use vstd::string::*;

verus! {

/// Shorthand for a result whose error is a [`TxBuilderError`].
pub type TxBuilderResult<T> = Result<T, TxBuilderError>;

/// An error together with its numeric code.
#[derive(Debug, Clone, Copy, PartialEq, Eq, Structural)]
pub enum TxBuilderError {
    /// Building a packet section failed (codes from 1000).
    BuildError(u16),
    /// A packet value could not be turned into JSON (codes from 2000).
    JsonError(u16),
    /// Packet data was read before it was built (codes from 3000).
    PacketError(u16),
    /// A transaction body was read before it was built (codes from 4000).
    TxBodyError(u16),
    /// The transaction builder was used in the wrong state (codes from 5000).
    TxBuildError(u16),
    /// A key could not be generated (codes from 6000).
    TxGenerateError(u16),
    /// A key could not sign or hand out its PEM (codes from 7000).
    KeyError(u16),
}

/// The decimal digit for `d`, which is below ten.
pub open spec fn digit(d: nat) -> char {
    if d == 0 {
        '0'
    } else if d == 1 {
        '1'
    } else if d == 2 {
        '2'
    } else if d == 3 {
        '3'
    } else if d == 4 {
        '4'
    } else if d == 5 {
        '5'
    } else if d == 6 {
        '6'
    } else if d == 7 {
        '7'
    } else if d == 8 {
        '8'
    } else {
        '9'
    }
}

/// The decimal notation of `n`, without leading zeros.
pub open spec fn decimal(n: nat) -> Seq<char>
    decreases n,
{
    if n < 10 {
        seq![digit(n)]
    } else {
        decimal(n / 10).push(digit(n % 10))
    }
}

fn digit_text(d: u16) -> (r: &'static str)
    requires
        d < 10,
    ensures
        r@ == seq![digit(d as nat)],
{
    proof {
        reveal_strlit("0");
        reveal_strlit("1");
        reveal_strlit("2");
        reveal_strlit("3");
        reveal_strlit("4");
        reveal_strlit("5");
        reveal_strlit("6");
        reveal_strlit("7");
        reveal_strlit("8");
        reveal_strlit("9");
    }
    let r = if d == 0 {
        "0"
    } else if d == 1 {
        "1"
    } else if d == 2 {
        "2"
    } else if d == 3 {
        "3"
    } else if d == 4 {
        "4"
    } else if d == 5 {
        "5"
    } else if d == 6 {
        "6"
    } else if d == 7 {
        "7"
    } else if d == 8 {
        "8"
    } else {
        "9"
    };
    assert(r@ =~= seq![digit(d as nat)]);
    r
}

/// Writes `n` in decimal notation.
fn decimal_string(n: u16) -> (r: String)
    ensures
        r@ == decimal(n as nat),
    decreases n,
{
    if n < 10 {
        digit_text(n).to_owned()
    } else {
        let head = decimal_string(n / 10);
        let r = head.concat(digit_text(n % 10));
        assert(r@ =~= decimal(n as nat));
        r
    }
}

impl TxBuilderError {
    /// The numeric code that the error carries.
    pub open spec fn code(self) -> u16 {
        match self {
            TxBuilderError::BuildError(c) => c,
            TxBuilderError::JsonError(c) => c,
            TxBuilderError::PacketError(c) => c,
            TxBuilderError::TxBodyError(c) => c,
            TxBuilderError::TxBuildError(c) => c,
            TxBuilderError::TxGenerateError(c) => c,
            TxBuilderError::KeyError(c) => c,
        }
    }

    /// The description that the error's family gives to its code.
    pub open spec fn description(self) -> Seq<char> {
        match self {
            TxBuilderError::BuildError(c) => TxBuilderErrorHandler::build_error(c),
            TxBuilderError::JsonError(c) => TxBuilderErrorHandler::json_error(c),
            TxBuilderError::PacketError(c) => TxBuilderErrorHandler::packet_error(c),
            TxBuilderError::TxBodyError(c) => TxBuilderErrorHandler::txbody_error(c),
            TxBuilderError::TxBuildError(c) => TxBuilderErrorHandler::txbuild_error(c),
            TxBuilderError::TxGenerateError(c) => TxBuilderErrorHandler::txgenerate_error(c),
            TxBuilderError::KeyError(c) => TxBuilderErrorHandler::key_error(c),
        }
    }

    /// The line shown for the error: its code, then its description.
    pub open spec fn text(self) -> Seq<char> {
        " Error - "@ + decimal(self.code() as nat) + " : "@ + self.description()
    }

    /// Renders the error as ` Error - <code> : <description>`.
    pub fn to_string(&self) -> (r: String)
        ensures
            r@ == self.text(),
    {
        let (code, description): (u16, &'static str) = match self {
            TxBuilderError::BuildError(c) => (*c, TxBuilderErrorHandler::get_build_error(c)),
            TxBuilderError::JsonError(c) => (*c, TxBuilderErrorHandler::get_json_error(c)),
            TxBuilderError::PacketError(c) => (*c, TxBuilderErrorHandler::get_packet_error(c)),
            TxBuilderError::TxBodyError(c) => (*c, TxBuilderErrorHandler::get_txbody_error(c)),
            TxBuilderError::TxBuildError(c) => (*c, TxBuilderErrorHandler::get_txbuild_error(c)),
            TxBuilderError::TxGenerateError(c) => (
                *c,
                TxBuilderErrorHandler::get_txgenerate_error(c),
            ),
            TxBuilderError::KeyError(c) => (*c, TxBuilderErrorHandler::get_key_error(c)),
        };
        let mut line = " Error - ".to_owned();
        let number = decimal_string(code);
        line.append(number.as_str());
        line.append(" : ");
        line.append(description);
        line
    }
}

/// The tables that turn a code into a description, one per error family.
pub struct TxBuilderErrorHandler;

impl TxBuilderErrorHandler {
    pub open spec fn build_error(code: u16) -> Seq<char> {
        if code == 1000 {
            "Error building the transaction packet"@
        } else {
            "Unknown Error"@
        }
    }

    pub open spec fn json_error(code: u16) -> Seq<char> {
        if code == 2000 {
            "Error converting array to JSON"@
        } else if code == 2001 {
            "Error converting object to JSON"@
        } else {
            "Unknown Error"@
        }
    }

    pub open spec fn packet_error(code: u16) -> Seq<char> {
        if code == 3000 {
            "Error getting string from packet data"@
        } else if code == 3001 {
            "Error getting JSON from packet data"@
        } else {
            "Unknown Error"@
        }
    }

    pub open spec fn txbody_error(code: u16) -> Seq<char> {
        if code == 4000 {
            "No transaction body"@
        } else {
            "Unknown Error"@
        }
    }

    pub open spec fn txbuild_error(code: u16) -> Seq<char> {
        if code == 5000 {
            "No transaction data"@
        } else if code == 5001 {
            "Error fetching input from PacketData"@
        } else if code == 5002 {
            "Error fetching output from PacketData"@
        } else if code == 5003 {
            "Error fetching readonly from PacketData"@
        } else if code == 5004 {
            "No packet data to sign"@
        } else if code == 5005 {
            "Packet data not built yet"@
        } else if code == 5006 {
            "Contract not set"@
        } else if code == 5007 {
            "Namespace not set"@
        } else if code == 5008 {
            "Input not set"@
        } else {
            "Unknown Error"@
        }
    }

    pub open spec fn txgenerate_error(code: u16) -> Seq<char> {
        if code == 6000 {
            "Error generating RSA key"@
        } else if code == 6001 {
            "Error generating Elliptic Curve key"@
        } else {
            "Unknown Error"@
        }
    }

    pub open spec fn key_error(code: u16) -> Seq<char> {
        if code == 7000 {
            "Error signing data with Elliptic Curve key"@
        } else if code == 7001 {
            "Error signing data with RSA key"@
        } else if code == 7002 {
            "Error getting keys PEM"@
        } else {
            "Unknown Error"@
        }
    }

    /// Describes a code of the packet-building family.
    pub fn get_build_error(code: &u16) -> (r: &'static str)
        ensures
            r@ == Self::build_error(*code),
    {
        if *code == 1000 {
            "Error building the transaction packet"
        } else {
            "Unknown Error"
        }
    }

    /// Describes a code of the JSON-conversion family.
    pub fn get_json_error(code: &u16) -> (r: &'static str)
        ensures
            r@ == Self::json_error(*code),
    {
        if *code == 2000 {
            "Error converting array to JSON"
        } else if *code == 2001 {
            "Error converting object to JSON"
        } else {
            "Unknown Error"
        }
    }

    /// Describes a code of the packet-data family.
    pub fn get_packet_error(code: &u16) -> (r: &'static str)
        ensures
            r@ == Self::packet_error(*code),
    {
        if *code == 3000 {
            "Error getting string from packet data"
        } else if *code == 3001 {
            "Error getting JSON from packet data"
        } else {
            "Unknown Error"
        }
    }

    /// Describes a code of the transaction-body family.
    pub fn get_txbody_error(code: &u16) -> (r: &'static str)
        ensures
            r@ == Self::txbody_error(*code),
    {
        if *code == 4000 {
            "No transaction body"
        } else {
            "Unknown Error"
        }
    }

    /// Describes a code of the transaction-builder family.
    pub fn get_txbuild_error(code: &u16) -> (r: &'static str)
        ensures
            r@ == Self::txbuild_error(*code),
    {
        if *code == 5000 {
            "No transaction data"
        } else if *code == 5001 {
            "Error fetching input from PacketData"
        } else if *code == 5002 {
            "Error fetching output from PacketData"
        } else if *code == 5003 {
            "Error fetching readonly from PacketData"
        } else if *code == 5004 {
            "No packet data to sign"
        } else if *code == 5005 {
            "Packet data not built yet"
        } else if *code == 5006 {
            "Contract not set"
        } else if *code == 5007 {
            "Namespace not set"
        } else if *code == 5008 {
            "Input not set"
        } else {
            "Unknown Error"
        }
    }

    /// Describes a code of the key-generation family.
    pub fn get_txgenerate_error(code: &u16) -> (r: &'static str)
        ensures
            r@ == Self::txgenerate_error(*code),
    {
        if *code == 6000 {
            "Error generating RSA key"
        } else if *code == 6001 {
            "Error generating Elliptic Curve key"
        } else {
            "Unknown Error"
        }
    }

    /// Describes a code of the key-use family.
    pub fn get_key_error(code: &u16) -> (r: &'static str)
        ensures
            r@ == Self::key_error(*code),
    {
        if *code == 7000 {
            "Error signing data with Elliptic Curve key"
        } else if *code == 7001 {
            "Error signing data with RSA key"
        } else if *code == 7002 {
            "Error getting keys PEM"
        } else {
            "Unknown Error"
        }
    }
}

} // verus!
