//! Recovery-key handling for cross-signing a freshly logged-in device.

use vstd::prelude::*;

verus! {

/// Whether `c` has the Unicode `White_Space` property: the ASCII tab, line
/// feed, vertical tab, form feed, carriage return and space, and U+0085,
/// U+00A0, U+1680, U+2000 to U+200A, U+2028, U+2029, U+202F, U+205F and
/// U+3000.
pub open spec fn is_white_space(c: char) -> bool {
    let u = c as u32;
    ||| 0x09 <= u <= 0x0D
    ||| u == 0x20
    ||| u == 0x85
    ||| u == 0xA0
    ||| u == 0x1680
    ||| 0x2000 <= u <= 0x200A
    ||| u == 0x2028
    ||| u == 0x2029
    ||| u == 0x202F
    ||| u == 0x205F
    ||| u == 0x3000
}

/// Calls `char::is_whitespace`, which is true exactly for the characters
/// with the Unicode `White_Space` property, as `is_white_space` lists them.
#[verifier::external_body]
fn char_is_whitespace(c: char) -> (r: bool)
    ensures
        r == is_white_space(c),
{
    c.is_whitespace()
}

/// Calls `String::push`, which appends one character at the end.
#[verifier::external_body]
fn string_push(s: &mut String, c: char)
    ensures
        final(s)@ == old(s)@.push(c),
{
    s.push(c)
}

/// A character that survives whitespace stripping.
pub open spec fn is_kept(c: char) -> bool {
    !is_white_space(c)
}

/// The key with every whitespace character removed, order kept.
pub open spec fn stripped(key: Seq<char>) -> Seq<char> {
    key.filter(|c: char| is_kept(c))
}

/// Recovery keys are usually displayed in space-separated groups, but the
/// SDK expects the key without any whitespace.
pub fn strip_whitespace(key: &str) -> (r: String)
    ensures
        r@ == stripped(key@),
{
    let mut r = String::new();
    for c in it: key.chars()
        invariant
            it.seq() == key@,
            r@ == stripped(key@.take(it.index() as int)),
    {
        let ghost before = key@.take(it.index() as int);
        let ghost after = key@.take(it.index() + 1);
        proof {
            lemma_stripped_push(before, c);
            assert(after =~= before.push(c));
        }
        if !char_is_whitespace(c) {
            string_push(&mut r, c);
        }
    }
    proof {
        assert(key@.take(key@.len() as int) =~= key@);
    }
    r
}

/// Stripping a key extended by one character extends the stripped key by
/// that character exactly when it is not whitespace.
proof fn lemma_stripped_push(s: Seq<char>, c: char)
    ensures
        stripped(s.push(c)) == if is_kept(c) {
            stripped(s).push(c)
        } else {
            stripped(s)
        },
{
    reveal(Seq::filter);
    assert(s.push(c).drop_last() =~= s);
}

/// What a failed recovery says.
pub const RECOVER_FAILED_MESSAGE: &'static str =
    "failed to recover secrets with the provided recovery key";

/// State of the account's recovery subsystem, as the SDK reports it.
#[derive(Clone, Copy, Debug, PartialEq, Eq)]
pub enum RecoveryState {
    /// Not yet determined.
    Unknown,
    /// Secret storage is set up and all secrets are present locally.
    Enabled,
    /// No default secret storage key exists, or it is disabled.
    Disabled,
    /// Secret storage is set up but some secrets are missing.
    Incomplete,
}

/// What to do to get the device cross-signed.
#[derive(Debug, PartialEq, Eq)]
pub enum RecoveryPlan {
    /// Recovery is already enabled: nothing to do.
    AlreadyEnabled,
    /// Recover the secrets with this (whitespace-free) key.
    Recover { key: String },
}

/// Decides whether the recovery key has to be used, and with which exact
/// key text: a device whose recovery is already enabled is left alone,
/// any other state recovers with the key stripped of its whitespace.
pub fn plan_recovery(state: RecoveryState, recovery_key: &str) -> (plan: RecoveryPlan)
    ensures
        (state == RecoveryState::Enabled) <==> (plan == RecoveryPlan::AlreadyEnabled),
        state != RecoveryState::Enabled ==> (plan matches RecoveryPlan::Recover { key } && key@
            == stripped(recovery_key@)),
{
    match state {
        RecoveryState::Enabled => RecoveryPlan::AlreadyEnabled,
        _ => RecoveryPlan::Recover { key: strip_whitespace(recovery_key) },
    }
}

/// A stripped key holds no whitespace character at all.
pub proof fn lemma_stripped_has_no_whitespace(key: Seq<char>)
    ensures
        forall|i: int| 0 <= i < stripped(key).len() ==> !is_white_space(#[trigger] stripped(key)[i]),
{
    broadcast use vstd::seq_lib::group_filter_ensures;

    assert forall|i: int| 0 <= i < stripped(key).len() implies !is_white_space(
        #[trigger] stripped(key)[i],
    ) by {
        key.lemma_filter_pred(|c: char| is_kept(c), i);
    }
}

/// A key that holds no whitespace is left exactly as it is.
pub proof fn lemma_stripped_keeps_clean_key(key: Seq<char>)
    requires
        forall|i: int| 0 <= i < key.len() ==> !is_white_space(#[trigger] key[i]),
    ensures
        stripped(key) == key,
    decreases key.len(),
{
    if key.len() > 0 {
        let init = key.drop_last();
        assert(forall|i: int| 0 <= i < init.len() ==> init[i] == key[i]);
        lemma_stripped_keeps_clean_key(init);
        lemma_stripped_push(init, key.last());
        assert(init.push(key.last()) =~= key);
    } else {
        reveal(Seq::filter);
    }
}

/// Stripping twice gives the same key as stripping once.
pub proof fn lemma_strip_idempotent(key: Seq<char>)
    ensures
        stripped(stripped(key)) == stripped(key),
{
    lemma_stripped_has_no_whitespace(key);
    lemma_stripped_keeps_clean_key(stripped(key));
}

/// A key copied in groups strips to the concatenation of its stripped
/// groups: where the key is split makes no difference.
pub proof fn lemma_strip_concat(a: Seq<char>, b: Seq<char>)
    ensures
        stripped(a + b) == stripped(a) + stripped(b),
{
    Seq::filter_distributes_over_add(a, b, |c: char| is_kept(c));
}

} // verus!
