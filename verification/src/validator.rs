//! The validation policy: a serial number passes when it is at least six
//! characters long, consists entirely of Unicode letters and digits, and is
//! not already recorded. All three checks always run; each failure appends
//! its error code, so one input can collect several codes, and the two
//! format rules both report `invalid_format`.

use vstd::prelude::*;
use vstd::string::StrSliceExecFns;
use crate::errors::{ValidationError, already_exists_code, invalid_format_code};
use crate::store::SerialStore;

verus! {

/// Whether the character counts as alphanumeric under the full Unicode
/// classification (a letter or a digit in any script): the result of
/// `char::is_alphanumeric`.
pub uninterp spec fn is_alphanumeric_char(c: char) -> bool;

/// Relies on char::is_alphanumeric: whether the character is a Unicode
/// letter or digit. The result depends on the character alone.
#[verifier::external_body]
fn char_is_alphanumeric(c: char) -> (r: bool)
    ensures
        r == is_alphanumeric_char(c),
{
    c.is_alphanumeric()
}

/// The length rule: at least six characters (Unicode scalar values, not
/// bytes), with no upper bound.
pub open spec fn length_ok(s: Seq<char>) -> bool {
    s.len() >= 6
}

/// The character-class rule: every character is a Unicode letter or digit.
/// An empty serial passes this rule (and fails the length rule).
pub open spec fn charset_ok(s: Seq<char>) -> bool {
    forall|i: int| 0 <= i < s.len() ==> is_alphanumeric_char(#[trigger] s[i])
}

/// Whether a serial passes all three rules, given whether an identical key
/// is already stored.
pub open spec fn expected_is_valid(s: Seq<char>, already_stored: bool) -> bool {
    length_ok(s) && charset_ok(s) && !already_stored
}

/// The exact error list a validation reports, in check-evaluation order:
/// length, then character class, then uniqueness. Codes are not
/// deduplicated, so a serial failing both format rules carries
/// `invalid_format` twice.
pub open spec fn expected_errors(s: Seq<char>, already_stored: bool) -> Seq<Seq<char>> {
    (if length_ok(s) {
        Seq::<Seq<char>>::empty()
    } else {
        seq![invalid_format_code()]
    }) + (if charset_ok(s) {
        Seq::<Seq<char>>::empty()
    } else {
        seq![invalid_format_code()]
    }) + (if already_stored {
        seq![already_exists_code()]
    } else {
        Seq::<Seq<char>>::empty()
    })
}

/// The outcome of one validation: a verdict and the codes of every rule
/// that failed. Constructed fresh per request and immutable once returned.
#[derive(Clone, PartialEq, Eq, Debug)]
pub struct ValidationResult {
    pub is_valid: bool,
    pub errors: Vec<String>,
}

impl ValidationResult {
    /// The error list as the sequence of the codes' character sequences.
    pub open spec fn codes(self) -> Seq<Seq<char>> {
        self.errors.deep_view()
    }

    /// The structural invariant: the verdict is positive exactly when the
    /// error list is empty.
    pub open spec fn well_formed(self) -> bool {
        self.is_valid <==> self.codes().len() == 0
    }
}

/// The length check alone: true when the serial has at least six characters.
pub fn validate_serial_length(serial_number: &str) -> (r: bool)
    ensures
        r == length_ok(serial_number@),
{
    serial_number.unicode_len() >= 6
}

/// The character-class check alone: true when every character is a Unicode
/// letter or digit.
pub fn validate_serial_alphanumeric(serial_number: &str) -> (r: bool)
    ensures
        r == charset_ok(serial_number@),
{
    let n = serial_number.unicode_len();
    let mut i: usize = 0;
    while i < n
        invariant
            n == serial_number@.len(),
            0 <= i <= n,
            forall|j: int| 0 <= j < i ==> is_alphanumeric_char(#[trigger] serial_number@[j]),
        decreases n - i,
    {
        let c = serial_number.get_char(i);
        if !char_is_alphanumeric(c) {
            return false;
        }
        i += 1;
    }
    true
}

/// The uniqueness check alone: true when no record with exactly this key is
/// in the store.
pub fn validate_serial_unique(serial_number: &str, store: &SerialStore) -> (r: bool)
    ensures
        r == !store@.contains(serial_number@),
{
    !store.contains(serial_number)
}

/// Run all three checks against the given record set and aggregate their
/// findings. Every check runs whatever the others found; each failure
/// appends its code, and the verdict is positive exactly when no check
/// failed.
pub fn validate_serial(serial_number: &str, store: &SerialStore) -> (r: ValidationResult)
    ensures
        r.is_valid == expected_is_valid(serial_number@, store@.contains(serial_number@)),
        r.codes() == expected_errors(serial_number@, store@.contains(serial_number@)),
        r.well_formed(),
{
    let mut is_valid = true;
    let mut errors: Vec<String> = Vec::new();

    if !validate_serial_length(serial_number) {
        is_valid = false;
        errors.push(ValidationError::InvalidFormat.value());
    }

    if !validate_serial_alphanumeric(serial_number) {
        is_valid = false;
        errors.push(ValidationError::InvalidFormat.value());
    }

    if !validate_serial_unique(serial_number, store) {
        is_valid = false;
        errors.push(ValidationError::AlreadyExists.value());
    }

    let r = ValidationResult { is_valid, errors };
    proof {
        let s = serial_number@;
        let stored = store@.contains(s);
        assert(r.codes() =~= expected_errors(s, stored));
        lemma_valid_iff_no_errors(s, stored);
    }
    r
}

/// An infrastructure fault of the record store (unreachable, timed out,
/// refused). It is not a validation finding: when the lookup faults, no
/// `ValidationResult` is produced at all.
#[derive(Clone, PartialEq, Eq, Debug)]
pub struct StoreFault {
    pub message: String,
}

/// Validate against the outcome of an external point lookup. A caller that
/// keeps its records in a remote table performs the lookup itself and hands
/// over either whether the key was found or the fault the lookup raised; a
/// fault aborts the validation and is returned unchanged, with no partial
/// result.
pub fn validate_serial_with_lookup(serial_number: &str, lookup: Result<bool, StoreFault>) -> (r:
    Result<ValidationResult, StoreFault>)
    ensures
        lookup is Err ==> r == Result::<ValidationResult, StoreFault>::Err(lookup->Err_0),
        lookup is Ok ==> r is Ok && {
            let v = r->Ok_0;
            &&& v.is_valid == expected_is_valid(serial_number@, lookup->Ok_0)
            &&& v.codes() == expected_errors(serial_number@, lookup->Ok_0)
            &&& v.well_formed()
        },
{
    let already_stored = match lookup {
        Ok(found) => found,
        Err(fault) => {
            return Err(fault);
        },
    };

    let mut is_valid = true;
    let mut errors: Vec<String> = Vec::new();

    if !validate_serial_length(serial_number) {
        is_valid = false;
        errors.push(ValidationError::InvalidFormat.value());
    }

    if !validate_serial_alphanumeric(serial_number) {
        is_valid = false;
        errors.push(ValidationError::InvalidFormat.value());
    }

    if already_stored {
        is_valid = false;
        errors.push(ValidationError::AlreadyExists.value());
    }

    let v = ValidationResult { is_valid, errors };
    proof {
        assert(v.codes() =~= expected_errors(serial_number@, already_stored));
        lemma_valid_iff_no_errors(serial_number@, already_stored);
    }
    Ok(v)
}

/// The result invariant: the verdict is positive exactly when the error
/// list is empty, whatever the serial and the store hold.
pub proof fn lemma_valid_iff_no_errors(s: Seq<char>, already_stored: bool)
    ensures
        expected_is_valid(s, already_stored) <==> expected_errors(s, already_stored).len() == 0,
{
}

/// A serial shorter than six characters is rejected and reports
/// `invalid_format`, whatever its characters and whether it is stored.
pub proof fn lemma_short_serial_rejected(s: Seq<char>, already_stored: bool)
    requires
        s.len() < 6,
    ensures
        !expected_is_valid(s, already_stored),
        expected_errors(s, already_stored).contains(invalid_format_code()),
{
    assert(expected_errors(s, already_stored)[0] == invalid_format_code());
}

/// A serial of six or more characters, all Unicode letters or digits, that
/// is not already stored is accepted with an empty error list.
pub proof fn lemma_conforming_serial_accepted(s: Seq<char>)
    requires
        s.len() >= 6,
        charset_ok(s),
    ensures
        expected_is_valid(s, false),
        expected_errors(s, false) == Seq::<Seq<char>>::empty(),
{
    assert(expected_errors(s, false) =~= Seq::<Seq<char>>::empty());
}

/// A serial containing at least one character that is not a Unicode letter
/// or digit is rejected and reports `invalid_format`, whatever its length
/// and whether it is stored.
pub proof fn lemma_nonalphanumeric_serial_rejected(s: Seq<char>, already_stored: bool)
    requires
        exists|i: int| 0 <= i < s.len() && !is_alphanumeric_char(#[trigger] s[i]),
    ensures
        !expected_is_valid(s, already_stored),
        expected_errors(s, already_stored).contains(invalid_format_code()),
{
    assert(!charset_ok(s));
    if length_ok(s) {
        assert(expected_errors(s, already_stored)[0] == invalid_format_code());
    } else {
        assert(expected_errors(s, already_stored)[1] == invalid_format_code());
    }
}

/// A serial whose exact key is already stored is rejected and reports
/// `already_exists`, whatever its format.
pub proof fn lemma_stored_serial_rejected(s: Seq<char>)
    ensures
        !expected_is_valid(s, true),
        expected_errors(s, true).contains(already_exists_code()),
{
    let errs = expected_errors(s, true);
    assert(errs[errs.len() - 1] == already_exists_code());
}

/// Findings accumulate: a serial that is both too short and not purely
/// alphanumeric carries `invalid_format` twice, once from each format rule.
pub proof fn lemma_findings_accumulate(s: Seq<char>, already_stored: bool)
    requires
        s.len() < 6,
        !charset_ok(s),
    ensures
        expected_errors(s, already_stored).len() >= 2,
        expected_errors(s, already_stored)[0] == invalid_format_code(),
        expected_errors(s, already_stored)[1] == invalid_format_code(),
{
}

/// Validation is idempotent: it mutates nothing, and any two results that
/// meet `validate_serial`'s contract for the same serial against the same
/// store contents carry the same verdict and the same error list.
pub proof fn lemma_validate_deterministic(
    r1: ValidationResult,
    r2: ValidationResult,
    s: Seq<char>,
    already_stored: bool,
)
    requires
        r1.is_valid == expected_is_valid(s, already_stored),
        r1.codes() == expected_errors(s, already_stored),
        r2.is_valid == expected_is_valid(s, already_stored),
        r2.codes() == expected_errors(s, already_stored),
    ensures
        r1.is_valid == r2.is_valid,
        r1.codes() == r2.codes(),
{
}

} // verus!
