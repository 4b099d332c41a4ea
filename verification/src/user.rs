//! Users and the choice of a unique username for a new Google account.
use rand::Rng;
use vstd::prelude::*;
use vstd::string::*;

use crate::error::AppError;
use crate::text::{decimal, push_char, push_decimal};

verus! {

/// A user (creator) as stored in the `users` table.
#[derive(Debug, Clone)]
pub struct User {
    pub id: u64,
    pub google_id: String,
    pub username: String,
    pub email: String,
    pub avatar_url: Option<String>,
    /// Seconds and nanoseconds since the Unix epoch, when the row has one.
    pub created_at: Option<(i64, u32)>,
}

/// A user looked up by username or Google id: the user when one was found,
/// else `UserNotFound` (the profile page, and the read-back after a new
/// user was inserted).
pub fn found_user(found: Option<User>) -> (r: Result<User, AppError>)
    ensures
        found matches Some(u) ==> r == Ok::<User, AppError>(u),
        found is None ==> r == Err::<User, AppError>(AppError::UserNotFound),
{
    match found {
        Some(u) => Ok(u),
        None => Err(AppError::UserNotFound),
    }
}

/// What the sign-in callback does with the user found by Google id.
#[derive(Debug)]
pub enum SignInAction {
    /// Sign the existing user in.
    UseExisting(User),
    /// Create a new user from the Google account.
    CreateUser,
}

/// The sign-in decision: an existing user with the Google id is used as it
/// is; otherwise a new user is created.
pub fn sign_in_action(found: Option<User>) -> (r: SignInAction)
    ensures
        found matches Some(u) ==> r == SignInAction::UseExisting(u),
        found is None ==> r == SignInAction::CreateUser,
{
    match found {
        Some(u) => SignInAction::UseExisting(u),
        None => SignInAction::CreateUser,
    }
}

/// Names the result of `str::to_lowercase` (Unicode lowercase mapping of a
/// whole string), which depends on the string alone.
pub uninterp spec fn unicode_lowercase(s: Seq<char>) -> Seq<char>;

/// Names the result of `char::is_alphanumeric` (Unicode `Alphabetic` or
/// `Numeric`), which depends on the character alone.
pub uninterp spec fn unicode_alphanumeric(c: char) -> bool;

/// `str::to_lowercase`: the contract claims only that the result is the
/// named Unicode lowercase mapping of the argument.
#[verifier::external_body]
fn to_lowercase(s: &str) -> (r: String)
    ensures
        r@ == unicode_lowercase(s@),
{
    s.to_lowercase()
}

/// `char::is_alphanumeric`: the contract claims only that the result is the
/// named Unicode property of the argument.
#[verifier::external_body]
fn is_alphanumeric(c: char) -> (b: bool)
    ensures
        b == unicode_alphanumeric(c),
{
    c.is_alphanumeric()
}

/// The characters of `s` that are alphanumeric, in order.
pub open spec fn keep_alphanumeric(s: Seq<char>) -> Seq<char>
    decreases s.len(),
{
    if s.len() == 0 {
        Seq::empty()
    } else {
        let rest = keep_alphanumeric(s.drop_last());
        if unicode_alphanumeric(s.last()) {
            rest.push(s.last())
        } else {
            rest
        }
    }
}

/// The username derived from a display name: lowercased, then stripped of
/// every character that is not alphanumeric.
pub open spec fn base_username(name: Seq<char>) -> Seq<char> {
    keep_alphanumeric(unicode_lowercase(name))
}

/// Computes `base_username(name)`.
pub fn derive_base_username(name: &str) -> (r: String)
    ensures
        r@ == base_username(name@),
{
    let lower = to_lowercase(name);
    let ghost l = lower@;
    let mut r = String::new();
    let n = lower.as_str().unicode_len();
    let mut i: usize = 0;
    while i < n
        invariant
            n == l.len(),
            i <= n,
            lower@ == l,
            r@ == keep_alphanumeric(l.take(i as int)),
        decreases n - i,
    {
        let c = lower.as_str().get_char(i);
        assert(l.take(i + 1).drop_last() == l.take(i as int));
        if is_alphanumeric(c) {
            push_char(&mut r, c);
        }
        i = i + 1;
    }
    assert(l.take(n as int) == l);
    r
}


/// The test for a character that a username keeps.
pub open spec fn alphanumeric_pred() -> spec_fn(char) -> bool {
    |c: char| unicode_alphanumeric(c)
}

proof fn lemma_keep_is_filter(s: Seq<char>)
    ensures
        keep_alphanumeric(s) == s.filter(alphanumeric_pred()),
    decreases s.len(),
{
    reveal(Seq::filter);
    if s.len() > 0 {
        lemma_keep_is_filter(s.drop_last());
    }
}

/// The base username is the lowercased name with exactly its
/// non-alphanumeric characters taken out: the lowercased name filtered by
/// `char::is_alphanumeric`. So it is as long as the number of alphanumeric
/// characters of the lowercased name, every one of them occurs in it, and
/// each of its characters is one of them.
pub proof fn lemma_base_username_filters_lowercase(name: Seq<char>)
    ensures
        base_username(name) == unicode_lowercase(name).filter(alphanumeric_pred()),
        base_username(name).len() == unicode_lowercase(name).filter(alphanumeric_pred()).len(),
        forall|i: int|
            0 <= i < unicode_lowercase(name).len() && unicode_alphanumeric(
                unicode_lowercase(name)[i],
            ) ==> #[trigger] base_username(name).contains(unicode_lowercase(name)[i]),
{
    let l = unicode_lowercase(name);
    lemma_keep_is_filter(l);
    assert forall|i: int|
        0 <= i < l.len() && unicode_alphanumeric(l[i]) implies #[trigger] base_username(
        name,
    ).contains(l[i]) by {
        l.lemma_filter_contains(alphanumeric_pred(), i);
    }
}

/// Appending a character to a (lowercased) name appends it to the kept
/// characters when it is alphanumeric and leaves them as they were when it
/// is not; no alphanumeric character is ever dropped.
pub proof fn lemma_keep_alphanumeric_push(s: Seq<char>, c: char)
    ensures
        unicode_alphanumeric(c) ==> keep_alphanumeric(s.push(c)) == keep_alphanumeric(s).push(c),
        !unicode_alphanumeric(c) ==> keep_alphanumeric(s.push(c)) == keep_alphanumeric(s),
        keep_alphanumeric(s.push(c)).len() == keep_alphanumeric(s).len() + (if unicode_alphanumeric(c) { 1int } else { 0int }),
{
    assert(s.push(c).drop_last() =~= s);
}

/// Every character of a derived username is alphanumeric.
pub proof fn lemma_base_username_alphanumeric(name: Seq<char>)
    ensures
        forall|i: int|
            0 <= i < base_username(name).len() ==> unicode_alphanumeric(
                #[trigger] base_username(name)[i],
            ),
{
    lemma_keep_alphanumeric(unicode_lowercase(name));
}

proof fn lemma_keep_alphanumeric(s: Seq<char>)
    ensures
        forall|i: int|
            0 <= i < keep_alphanumeric(s).len() ==> unicode_alphanumeric(
                #[trigger] keep_alphanumeric(s)[i],
            ),
    decreases s.len(),
{
    if s.len() > 0 {
        let rest = keep_alphanumeric(s.drop_last());
        lemma_keep_alphanumeric(s.drop_last());
        assert forall|i: int|
            0 <= i < keep_alphanumeric(s).len() implies unicode_alphanumeric(
                #[trigger] keep_alphanumeric(s)[i],
            ) by {
            if i < rest.len() {
                assert(keep_alphanumeric(s)[i] == rest[i]);
            }
        }
    }
}

/// One of the 62 ASCII letters and digits.
pub open spec fn is_ascii_alphanumeric(c: char) -> bool {
    ||| ('0' as u32) <= (c as u32) <= ('9' as u32)
    ||| ('a' as u32) <= (c as u32) <= ('z' as u32)
    ||| ('A' as u32) <= (c as u32) <= ('Z' as u32)
}

/// `Rng::sample(&mut thread_rng(), Alphanumeric)`: the contract claims that
/// the sampled byte, as a character, is one of rand's 62 ASCII letters and
/// digits (its `GEN_ASCII_STR_CHARSET`); which one is left to chance.
#[verifier::external_body]
fn random_alphanumeric() -> (c: char)
    ensures
        is_ascii_alphanumeric(c),
{
    char::from(rand::thread_rng().sample(rand::distributions::Alphanumeric))
}

/// Number of random characters appended to a username on its first collision.
pub const SUFFIX_LEN: usize = 4;

/// Draws the random suffix used on the first username collision: four
/// ASCII letters or digits chosen by the thread-local random generator.
pub fn random_suffix() -> (r: String)
    ensures
        r@.len() == SUFFIX_LEN,
        forall|i: int| 0 <= i < r@.len() ==> is_ascii_alphanumeric(#[trigger] r@[i]),
{
    let mut r = String::new();
    let mut i: usize = 0;
    while i < SUFFIX_LEN
        invariant
            i <= SUFFIX_LEN,
            r@.len() == i,
            forall|j: int| 0 <= j < r@.len() ==> is_ascii_alphanumeric(#[trigger] r@[j]),
        decreases SUFFIX_LEN - i,
    {
        let c = random_alphanumeric();
        push_char(&mut r, c);
        i = i + 1;
    }
    r
}

/// The candidate username after `collisions` names were found taken:
/// the base itself, then the base with `_` and the random suffix, then the
/// base with `_` and the collision count (`_2`, `_3`, ...).
pub open spec fn candidate_after(base: Seq<char>, collisions: nat, suffix: Seq<char>) -> Seq<char> {
    if collisions == 0 {
        base
    } else if collisions == 1 {
        base + seq!['_'] + suffix
    } else {
        base + seq!['_'] + decimal(collisions)
    }
}

/// Every candidate username starts with the base username.
pub proof fn lemma_candidate_extends_base(base: Seq<char>, collisions: nat, suffix: Seq<char>)
    ensures
        candidate_after(base, collisions, suffix).len() >= base.len(),
        candidate_after(base, collisions, suffix).subrange(0, base.len() as int) == base,
{
    assert(candidate_after(base, collisions, suffix).subrange(0, base.len() as int) =~= base);
}

/// Apart from the one with the random suffix, no two candidates of a search
/// are the same name, so a search never looks up a numbered name twice.
pub proof fn lemma_candidates_distinct(base: Seq<char>, i: nat, j: nat, suffix: Seq<char>)
    requires
        i != j,
        i != 1,
        j != 1,
    ensures
        candidate_after(base, i, suffix) != candidate_after(base, j, suffix),
{
    if i >= 2 && j >= 2 {
        let ci = candidate_after(base, i, suffix);
        let cj = candidate_after(base, j, suffix);
        if ci == cj {
            let k = base.len() + 1;
            assert(ci.subrange(k as int, ci.len() as int) =~= decimal(i));
            assert(cj.subrange(k as int, cj.len() as int) =~= decimal(j));
            crate::text::lemma_decimal_injective(i, j);
        }
    } else if i == 0 {
        crate::text::lemma_decimal_len(j);
    } else {
        crate::text::lemma_decimal_len(i);
    }
}

/// Which candidate the lookup at position `i` of a search is about, leaving
/// out the one with the random suffix: position 1 stands for the base, the
/// others for the candidate with that number.
pub open spec fn numbered_collisions(i: int) -> nat {
    if i == 1 { 0 } else { i as nat }
}

/// A search ends within `taken.len() + 2` lookups when the names already
/// taken form a finite set: among the base and the numbered candidates
/// `_2` to `_{taken.len() + 1}` there is one that is not taken, whatever the
/// random suffix.
pub proof fn lemma_search_finds_free(base: Seq<char>, suffix: Seq<char>, taken: Set<Seq<char>>)
    requires
        taken.finite(),
    ensures
        exists|n: nat|
            n <= taken.len() + 1 && n != 1 && !taken.contains(
                #[trigger] candidate_after(base, n, suffix),
            ),
{
    let len = taken.len() as int;
    let positions = vstd::set_lib::set_int_range(1, len + 2);
    let f = |i: int| candidate_after(base, numbered_collisions(i), suffix);
    vstd::set_lib::lemma_int_range(1, len + 2);
    assert(vstd::relations::injective_on(f, positions)) by {
        assert forall|a: int, b: int|
            positions.contains(a) && positions.contains(b) && #[trigger] f(a) == #[trigger] f(b)
            implies a == b by {
            if a != b {
                lemma_candidates_distinct(base, numbered_collisions(a), numbered_collisions(b), suffix);
            }
        }
    }
    let probed = positions.map(f);
    vstd::set_lib::lemma_map_size(positions, probed, f);
    if forall|n: nat|
        n <= taken.len() + 1 && n != 1 ==> taken.contains(#[trigger] candidate_after(base, n, suffix)) {
        assert(probed.subset_of(taken)) by {
            assert forall|c: Seq<char>| probed.contains(c) implies taken.contains(c) by {
                let i = choose|i: int| positions.contains(i) && f(i) == c;
                assert(taken.contains(candidate_after(base, numbered_collisions(i), suffix)));
            }
        }
        vstd::set_lib::lemma_len_subset(probed, taken);
        assert(false);
    }
}

/// The search for a free username, one lookup at a time. The caller looks up
/// `candidate()` and reports whether it is taken; the search answers with the
/// username to insert, or moves on to the next candidate.
pub struct UsernameSearch {
    base: String,
    candidate: String,
    counter: i32,
    suffix: Ghost<Seq<char>>,
}

impl UsernameSearch {
    /// The base username that every candidate starts with.
    pub closed spec fn base(&self) -> Seq<char> {
        self.base@
    }

    /// How many candidates were found taken so far.
    pub closed spec fn collisions(&self) -> nat {
        (self.counter - 1) as nat
    }

    /// The random suffix drawn on the first collision (empty before it).
    pub closed spec fn suffix(&self) -> Seq<char> {
        self.suffix@
    }

    /// The candidate that the next lookup is about.
    pub closed spec fn current(&self) -> Seq<char> {
        self.candidate@
    }

    /// The candidate is the one due after the collisions counted so far,
    /// and a random suffix, once drawn, is four ASCII letters or digits.
    #[verifier::type_invariant]
    closed spec fn wf(&self) -> bool {
        &&& 1 <= self.counter
        &&& self.candidate@ == candidate_after(self.base@, (self.counter - 1) as nat, self.suffix@)
        &&& self.counter >= 2 ==> {
            &&& self.suffix@.len() == SUFFIX_LEN
            &&& forall|i: int| 0 <= i < self.suffix@.len() ==> is_ascii_alphanumeric(#[trigger] self.suffix@[i])
        }
    }

    /// Starts the search for the user with the given display name: the first
    /// candidate is the base username itself.
    pub fn start(display_name: &str) -> (s: Self)
        ensures
            s.base() == base_username(display_name@),
            s.collisions() == 0,
            s.current() == base_username(display_name@),
    {
        let base = derive_base_username(display_name);
        let candidate = base.clone();
        UsernameSearch { base, candidate, counter: 1, suffix: Ghost(Seq::empty()) }
    }

    /// The candidate username to look up next.
    pub fn candidate(&self) -> (r: &str)
        ensures
            r@ == self.current(),
    {
        self.candidate.as_str()
    }

    /// Whether a taken candidate can still be answered with a next one
    /// (the collision counter is an `i32`).
    pub fn can_advance(&self) -> (r: bool)
        ensures
            r == (self.collisions() + 1 < i32::MAX),
    {
        proof {
            use_type_invariant(self);
        }
        self.counter < i32::MAX
    }

    /// Records the result of looking up `candidate()`. A free candidate is
    /// returned as the username to insert and the search is left as it was;
    /// a taken one moves the search to the next candidate.
    pub fn record_lookup(&mut self, taken: bool) -> (r: Option<String>)
        requires
            taken ==> old(self).collisions() + 1 < i32::MAX,
        ensures
            final(self).base() == old(self).base(),
            !taken ==> r is Some && *final(self) == *old(self),
            !taken ==> r->Some_0@ == old(self).current(),
            taken ==> r is None,
            taken ==> final(self).collisions() == old(self).collisions() + 1,
            taken && old(self).collisions() >= 1 ==> final(self).suffix() == old(self).suffix(),
            taken ==> final(self).current() == candidate_after(
                final(self).base(),
                final(self).collisions(),
                final(self).suffix(),
            ),
            taken ==> final(self).collisions() == 1 ==> {
                &&& final(self).suffix().len() == SUFFIX_LEN
                &&& forall|i: int| 0 <= i < final(self).suffix().len()
                    ==> is_ascii_alphanumeric(#[trigger] final(self).suffix()[i])
            },
    {
        proof {
            use_type_invariant(&*self);
        }
        if !taken {
            return Some(self.candidate.clone());
        }
        let base = self.base.clone();
        let mut next = String::from_str(base.as_str());
        push_char(&mut next, '_');
        let ghost mut suffix = self.suffix@;
        if self.counter == 1 {
            let drawn = random_suffix();
            next.append(drawn.as_str());
            proof {
                suffix = drawn@;
            }
            assert(next@ =~= base@ + seq!['_'] + drawn@);
        } else {
            push_decimal(&mut next, self.counter as u32);
            assert(next@ =~= base@ + seq!['_'] + decimal(self.counter as nat));
        }
        let counter = self.counter + 1;
        *self = UsernameSearch { base, candidate: next, counter, suffix: Ghost(suffix) };
        None
    }
}

} // verus!
