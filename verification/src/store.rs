//! An in-memory record set standing for the table of already-accepted serial
//! numbers. The validator only ever asks whether an exact key is present;
//! callers that keep their records elsewhere perform the lookup themselves
//! and hand the validator its outcome.

use vstd::prelude::*;
use vstd::string::StringExecFns;

verus! {

/// The set of serial numbers that have already been accepted, in the order
/// they were recorded. Abstractly it is the sequence of its keys, each a
/// sequence of characters.
pub struct SerialStore {
    keys: Vec<String>,
}

impl View for SerialStore {
    type V = Seq<Seq<char>>;

    closed spec fn view(&self) -> Seq<Seq<char>> {
        self.keys.deep_view()
    }
}

impl SerialStore {
    /// A store holding no records.
    pub fn new() -> (r: SerialStore)
        ensures
            r@ == Seq::<Seq<char>>::empty(),
    {
        let r = SerialStore { keys: Vec::new() };
        proof {
            assert(r@ =~= Seq::<Seq<char>>::empty());
        }
        r
    }

    /// Append one record keyed by `serial_number`.
    pub fn record(&mut self, serial_number: &str)
        ensures
            final(self)@ == old(self)@.push(serial_number@),
    {
        self.keys.push(String::from_str(serial_number));
        proof {
            assert(self@ =~= old(self)@.push(serial_number@));
        }
    }

    /// How many records the store holds.
    pub fn len(&self) -> (n: usize)
        ensures
            n == self@.len(),
    {
        self.keys.len()
    }

    /// Whether a record with exactly this key is present. The match is
    /// exact: no trimming, no case folding.
    pub fn contains(&self, serial_number: &str) -> (r: bool)
        ensures
            r == self@.contains(serial_number@),
    {
        let wanted = String::from_str(serial_number);
        let n = self.keys.len();
        let mut i: usize = 0;
        while i < n
            invariant
                n == self.keys.len(),
                0 <= i <= n,
                wanted@ == serial_number@,
                forall|j: int| 0 <= j < i ==> self@[j] != serial_number@,
            decreases n - i,
        {
            if self.keys[i] == wanted {
                proof {
                    assert(self@[i as int] == serial_number@);
                }
                return true;
            }
            i += 1;
        }
        proof {
            assert(!self@.contains(serial_number@));
        }
        false
    }
}

} // verus!
