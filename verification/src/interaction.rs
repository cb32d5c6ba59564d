//! Decisions around the interactive surface.
//!
//! The prompts themselves are outside work; here live the rules: how an
//! answer is read, which confirmations a destructive operation asks in
//! which order, and the exact text of the login verification hand-off.
//! A declined confirmation cancels the remaining pipeline as a no-op,
//! strictly before any mutating backend call.

use vstd::prelude::*;
use crate::bootstrap::{StoredKeyProvider, StoredOnlineWallet};

verus! {

/// An answer with one trailing line break removed: first a `\n`, then a
/// `\r`, so that both endings are handled.
pub open spec fn trimmed_answer(s: Seq<char>) -> Seq<char> {
    let s1 = if s.len() > 0 && s.last() == '\n' {
        s.drop_last()
    } else {
        s
    };
    if s1.len() > 0 && s1.last() == '\r' {
        s1.drop_last()
    } else {
        s1
    }
}

/// Reads a confirmation answer: only a literal `yes`, up to one trailing
/// line break, confirms; everything else declines.
pub fn parse_confirmation(answer: &str) -> (r: bool)
    ensures
        r == (trimmed_answer(answer@) == "yes"@),
{
    let mut end = answer.unicode_len();
    if end > 0 && answer.get_char(end - 1) == '\n' {
        end = end - 1;
    }
    proof {
        assert(answer@.take(answer@.len() as int) =~= answer@);
        assert(answer@.drop_last() =~= answer@.take(answer@.len() - 1));
    }
    if end > 0 && answer.get_char(end - 1) == '\r' {
        end = end - 1;
    }
    let body = answer.substring_char(0, end);
    proof {
        let t = trimmed_answer(answer@);
        let s1 = if answer@.len() > 0 && answer@.last() == '\n' {
            answer@.drop_last()
        } else {
            answer@
        };
        assert(s1 =~= answer@.take(s1.len() as int));
        assert(t =~= s1.take(t.len() as int));
        assert(body@ =~= t);
    }
    let body_string = String::from_str(body);
    let yes = String::from_str("yes");
    body_string == yes
}

/// One confirmation a destructive operation asks before acting.
#[derive(Clone, Copy, PartialEq, Eq, Structural, Debug)]
pub enum ConfirmationKind {
    /// "Do you have a backup of the seed?"
    SeedBackedUp,
    /// "Do you have a backup of the descriptors?"
    DescriptorsBackedUp,
    /// "Do you understand that both seed and descriptors are necessary?"
    BothNecessary,
    /// "Are you sure you want to delete?"
    FinalConfirmation,
}

/// The confirmations wallet removal asks, in order: the seed question
/// only when a seed actually lives in the database (not on a hardware
/// device), the descriptors question only when an online wallet exists,
/// then the two general questions always.
pub open spec fn spec_wallet_remove_confirmations(
    key: StoredKeyProvider,
    online: StoredOnlineWallet,
) -> Seq<ConfirmationKind> {
    let seed_part: Seq<ConfirmationKind> = if !(key is NoKeyProvider) && !(key is Ledger) {
        seq![ConfirmationKind::SeedBackedUp]
    } else {
        Seq::empty()
    };
    let desc_part: Seq<ConfirmationKind> = if !(online is NoOnlineWallet) {
        seq![ConfirmationKind::DescriptorsBackedUp]
    } else {
        Seq::empty()
    };
    seed_part + desc_part + seq![
        ConfirmationKind::BothNecessary,
        ConfirmationKind::FinalConfirmation,
    ]
}

/// Plans the confirmations wallet removal must ask.
pub fn plan_wallet_remove_confirmations(
    key: &StoredKeyProvider,
    online: &StoredOnlineWallet,
) -> (r: Vec<ConfirmationKind>)
    ensures
        r@ == spec_wallet_remove_confirmations(*key, *online),
{
    let mut r: Vec<ConfirmationKind> = Vec::new();
    let keep_seed_question = match key {
        StoredKeyProvider::NoKeyProvider => false,
        StoredKeyProvider::Ledger => false,
        StoredKeyProvider::Local { .. } => true,
    };
    if keep_seed_question {
        r.push(ConfirmationKind::SeedBackedUp);
    }
    let keep_desc_question = match online {
        StoredOnlineWallet::NoOnlineWallet => false,
        _ => true,
    };
    if keep_desc_question {
        r.push(ConfirmationKind::DescriptorsBackedUp);
    }
    r.push(ConfirmationKind::BothNecessary);
    r.push(ConfirmationKind::FinalConfirmation);
    proof {
        assert(r@ =~= spec_wallet_remove_confirmations(*key, *online));
    }
    r
}

/// The confirmations heir-wallet removal asks, unless the operator
/// explicitly skipped them: the seed question only when a key backend
/// exists, then the final question.
pub open spec fn spec_heir_wallet_remove_confirmations(
    key: StoredKeyProvider,
    skip: bool,
) -> Seq<ConfirmationKind> {
    if skip {
        Seq::empty()
    } else if !(key is NoKeyProvider) {
        seq![ConfirmationKind::SeedBackedUp, ConfirmationKind::FinalConfirmation]
    } else {
        seq![ConfirmationKind::FinalConfirmation]
    }
}

/// Plans the confirmations heir-wallet removal must ask.
pub fn plan_heir_wallet_remove_confirmations(key: &StoredKeyProvider, skip: bool) -> (r: Vec<
    ConfirmationKind,
>)
    ensures
        r@ == spec_heir_wallet_remove_confirmations(*key, skip),
{
    let mut r: Vec<ConfirmationKind> = Vec::new();
    if !skip {
        let has_key = match key {
            StoredKeyProvider::NoKeyProvider => false,
            _ => true,
        };
        if has_key {
            r.push(ConfirmationKind::SeedBackedUp);
        }
        r.push(ConfirmationKind::FinalConfirmation);
    }
    proof {
        assert(r@ =~= spec_heir_wallet_remove_confirmations(*key, skip));
    }
    r
}

/// Whether the answers allow the destructive operation to proceed: every
/// asked confirmation must have been answered yes; the first decline
/// cancels.
pub fn removal_approved(answers: &Vec<bool>) -> (r: bool)
    ensures
        r == (forall|i: int| 0 <= i < answers@.len() ==> answers@[i]),
{
    let mut i: usize = 0;
    while i < answers.len()
        invariant
            i <= answers@.len(),
            forall|k: int| 0 <= k < i ==> answers@[k],
        decreases answers@.len() - i,
    {
        if !answers[i] {
            return false;
        }
        i = i + 1;
    }
    true
}

/// The words of a mnemonic phrase joined by single spaces.
pub open spec fn joined_words(ws: Seq<String>) -> Seq<char>
    decreases ws.len(),
{
    if ws.len() == 0 {
        Seq::empty()
    } else if ws.len() == 1 {
        ws[0]@
    } else {
        joined_words(ws.drop_last()) + " "@ + ws.last()@
    }
}

/// Joins the seed words of a restore into the single phrase the key
/// backend parses.
pub fn join_mnemonic_words(words: &Vec<String>) -> (r: String)
    ensures
        r@ == joined_words(words@),
{
    let n = words.len();
    let mut r = String::new();
    let mut i: usize = 0;
    while i < n
        invariant
            n == words@.len(),
            i <= n,
            r@ == joined_words(words@.take(i as int)),
        decreases n - i,
    {
        proof {
            assert(words@.take(i as int + 1).drop_last() =~= words@.take(i as int));
            assert(words@.take(i as int + 1).last() == words@[i as int]);
        }
        if i == 0 {
            r = words[i].clone();
        } else {
            r = r.concat(" ").concat(words[i].as_str());
        }
        i = i + 1;
    }
    proof {
        assert(words@.take(n as int) =~= words@);
    }
    r
}

/// The complete verification URL the user opens to approve a login.
pub fn login_verification_url(verification_uri: &str, user_code: &str) -> (r: String)
    ensures
        r@ == verification_uri@ + "?user_code="@ + user_code@,
{
    let r = String::from_str(verification_uri).concat("?user_code=").concat(user_code);
    proof {
        assert(r@ =~= verification_uri@ + "?user_code="@ + user_code@);
    }
    r
}

/// The user code as shown for comparison: its first four characters, a
/// dash, and the rest.
pub fn format_user_code(user_code: &str) -> (r: String)
    requires
        user_code@.len() >= 4,
    ensures
        r@ == user_code@.subrange(0, 4) + "-"@ + user_code@.subrange(4, user_code@.len() as int),
{
    let n = user_code.unicode_len();
    let head = user_code.substring_char(0, 4);
    let tail = user_code.substring_char(4, n);
    let r = String::from_str(head).concat("-").concat(tail);
    proof {
        assert(r@ =~= user_code@.subrange(0, 4) + "-"@ + user_code@.subrange(
            4,
            user_code@.len() as int,
        ));
    }
    r
}

} // verus!
