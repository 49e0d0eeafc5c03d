//! The closed set of supported byte-generation algorithms and the parsing of
//! an algorithm name given on the command line.

use vstd::prelude::*;
use vstd::string::StrSliceExecFns;
use vstd::string::StringExecFns;

verus! {

/// A byte-generation algorithm. All are user-space generators except `Os`,
/// which draws from the operating system's entropy channel. `Default` selects
/// a cryptographically secure algorithm with good performance.
#[derive(Debug, Copy, Clone, Eq, PartialEq, Structural)]
pub enum Algorithm {
    Default,
    Hc,
    ChaCha8,
    ChaCha12,
    ChaCha20,
    XorShift,
    Pcg,
    Os,
}

/// The error returned when an algorithm name is not recognized.
#[derive(Debug, Copy, Clone, Eq, PartialEq, Structural)]
pub struct ParseAlgorithmError;

/// The algorithm selected by the name `s`, or `None` when the name is not
/// recognized.
pub open spec fn parse_algorithm(s: Seq<char>) -> Option<Algorithm> {
    if s == "hc"@ {
        Some(Algorithm::Hc)
    } else if s == "chacha"@ || s == "chacha20"@ {
        Some(Algorithm::ChaCha20)
    } else if s == "chacha8"@ {
        Some(Algorithm::ChaCha8)
    } else if s == "chacha12"@ {
        Some(Algorithm::ChaCha12)
    } else if s == "xorshift"@ {
        Some(Algorithm::XorShift)
    } else if s == "pcg"@ {
        Some(Algorithm::Pcg)
    } else if s == "os"@ {
        Some(Algorithm::Os)
    } else {
        None
    }
}

/// Whether two string slices hold the same characters.
pub fn str_eq(a: &str, b: &str) -> (r: bool)
    ensures
        r == (a@ == b@),
{
    let a_len: usize = a.unicode_len();
    let b_len: usize = b.unicode_len();
    if a_len != b_len {
        return false;
    }
    let mut i: usize = 0;
    while i < a_len
        invariant
            i <= a_len,
            a_len == a@.len(),
            a_len == b@.len(),
            forall|j: int| 0 <= j < i ==> a@[j] == b@[j],
        decreases a_len - i,
    {
        if a.get_char(i) != b.get_char(i) {
            return false;
        }
        i = i + 1;
    }
    proof {
        assert(a@ =~= b@);
    }
    true
}

impl Algorithm {
    /// Parses an algorithm name: "hc", "chacha" (or "chacha8", "chacha12",
    /// "chacha20"), "xorshift", "pcg", or "os"; any other name is rejected.
    pub fn from_str(s: &str) -> (r: Result<Algorithm, ParseAlgorithmError>)
        ensures
            r is Ok <==> parse_algorithm(s@) is Some,
            r is Ok ==> r->Ok_0 == parse_algorithm(s@)->Some_0,
    {
        if str_eq(s, "hc") {
            Ok(Algorithm::Hc)
        } else if str_eq(s, "chacha") || str_eq(s, "chacha20") {
            Ok(Algorithm::ChaCha20)
        } else if str_eq(s, "chacha8") {
            Ok(Algorithm::ChaCha8)
        } else if str_eq(s, "chacha12") {
            Ok(Algorithm::ChaCha12)
        } else if str_eq(s, "xorshift") {
            Ok(Algorithm::XorShift)
        } else if str_eq(s, "pcg") {
            Ok(Algorithm::Pcg)
        } else if str_eq(s, "os") {
            Ok(Algorithm::Os)
        } else {
            Err(ParseAlgorithmError)
        }
    }

    /// Whether this algorithm can run several independent generator instances
    /// in parallel. Only the OS entropy source cannot: there is no speed to be
    /// gained from draining one shared OS entropy channel on many threads.
    pub fn is_parallelizable(&self) -> (r: bool)
        ensures
            r == !(*self is Os),
    {
        !matches!(self, Algorithm::Os)
    }
}

impl ParseAlgorithmError {
    /// The operator-facing description of this error.
    pub fn message(&self) -> (r: String)
        ensures
            r@ == "Invalid algorithm. See --help for a list of valid options."@,
    {
        String::from_str("Invalid algorithm. See --help for a list of valid options.")
    }
}

} // verus!
