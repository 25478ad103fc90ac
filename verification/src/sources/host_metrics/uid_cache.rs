//! Usernames for numeric user ids, remembered for a while.

use std::collections::HashMap;
use std::time::Instant;

use vstd::arithmetic::power2::*;
use vstd::prelude::*;
use vstd::std_specs::hash::*;
use vstd::string::*;
use vstd::utf8::*;

use crate::text;

verus! {

broadcast use group_hash_axioms;

/// How long a username is kept where nothing else was asked for, in seconds.
pub const DEFAULT_TTL_SECS: u64 = 300;

/// Nanoseconds in a second.
pub const NANOS_PER_SEC: u128 = 1_000_000_000;

/// A point in time of the monotonic clock. Nothing is known of one but that it can be measured
/// against.
#[verifier::external_type_specification]
#[verifier::external_body]
pub struct ExInstant(std::time::Instant);

/// A username and when it was learned, in nanoseconds since the cache was made.
#[derive(Debug)]
struct CacheEntry {
    username: String,
    inserted_at: u128,
}

/// TTL-based cache for resolving numeric UIDs to usernames.
///
/// Avoids repeated NSS/SSSD lookups (which can hit LDAP and take 50-200ms
/// per call in IDM/IPA environments) by caching UID→username mappings.
#[derive(Debug)]
pub struct UidCache {
    cache: HashMap<u32, CacheEntry>,
    ttl_secs: u64,
    epoch: Instant,
}

/// A remembered username, as contracts speak of it.
pub struct KnownName {
    pub username: Seq<char>,
    pub inserted_at: u128,
}

/// What a cache holds, as contracts speak of it.
#[verifier::ext_equal]
pub struct KnownNames {
    pub names: Map<u32, KnownName>,
    pub ttl_secs: u64,
    /// The moment that all times are counted from.
    pub epoch: Instant,
}

/// The time from `earlier` to `now`, none where the clock seems to have gone back.
pub open spec fn time_between(earlier: u128, now: u128) -> int {
    if earlier <= now {
        now - earlier
    } else {
        0
    }
}

/// The name that stands for a user: the one that was found, or else the number.
pub open spec fn name_or_number(uid: u32, found: Option<Seq<char>>) -> Seq<char> {
    match found {
        Some(name) => name,
        None => text::decimal(uid as nat),
    }
}

impl KnownNames {
    /// Whether the name for `uid` is known and was learned less than the TTL ago.
    pub open spec fn fresh(self, uid: u32, now: u128) -> bool {
        &&& self.names.contains_key(uid)
        &&& time_between(self.names[uid].inserted_at, now) < self.ttl_secs * NANOS_PER_SEC
    }

    /// What is known once `name` was learned for `uid`.
    pub open spec fn learned(self, uid: u32, now: u128, name: Seq<char>) -> KnownNames {
        KnownNames {
            names: self.names.insert(uid, KnownName { username: name, inserted_at: now }),
            ttl_secs: self.ttl_secs,
            epoch: self.epoch,
        }
    }

    /// The answer for `uid` where the time is `now` and a lookup finds `found`.
    pub open spec fn answer(self, uid: u32, now: u128, found: Option<Seq<char>>) -> Seq<char> {
        if self.fresh(uid, now) {
            self.names[uid].username
        } else {
            name_or_number(uid, found)
        }
    }

    /// What is known after that answer.
    pub open spec fn after(self, uid: u32, now: u128, found: Option<Seq<char>>) -> KnownNames {
        if self.fresh(uid, now) {
            self
        } else {
            self.learned(uid, now, name_or_number(uid, found))
        }
    }

    /// Whether asking for `uid` at the time `now` can give `name` and leave `next` known. Where the
    /// name is not fresh then, it is what the user database says.
    pub open spec fn resolves_at<F: Fn(u32, usize) -> UserAnswer>(
        self,
        ask: &F,
        uid: u32,
        now: u128,
        name: Seq<char>,
        next: KnownNames,
    ) -> bool {
        exists|found: Option<Seq<char>>|
            {
                &&& !self.fresh(uid, now) ==> finds(ask, uid, found)
                &&& #[trigger] self.answer(uid, now, found) == name
                &&& self.after(uid, now, found) == next
            }
    }

    /// Whether asking for `uid` can give `name` and leave `next` known, at the time that the clock
    /// shows.
    pub open spec fn can_resolve<F: Fn(u32, usize) -> UserAnswer>(
        self,
        ask: &F,
        uid: u32,
        name: Seq<char>,
        next: KnownNames,
    ) -> bool {
        exists|now: u128|
            {
                &&& clock_read(self.epoch, now)
                &&& #[trigger] self.resolves_at(ask, uid, now, name, next)
            }
    }
}

/// `std::time::Instant::now`. Nothing is claimed of the time.
#[verifier::external_body]
fn instant_now() -> (now: Instant) {
    Instant::now()
}

/// `std::time::Instant::elapsed`, in nanoseconds. Nothing is claimed of the time.
#[verifier::external_body]
fn nanos_since(start: &Instant) -> (nanos: u128) {
    start.elapsed().as_nanos()
}

/// Whether `now` is what the clock showed, in nanoseconds since `epoch`.
pub closed spec fn clock_read(epoch: Instant, now: u128) -> bool {
    call_ensures(nanos_since, (&epoch,), now)
}

/// Whether `epoch` is a moment that the clock showed.
pub closed spec fn clock_started(epoch: Instant) -> bool {
    call_ensures(instant_now, (), epoch)
}

/// The code by which `getpwuid_r` says that its buffer was too small.
pub const ERANGE: i32 = 34;

/// The size of the first buffer that the user database gets, in bytes.
pub const FIRST_BUFFER: usize = 1024;

/// An answer of the user database, as `getpwuid_r` gives it.
#[derive(Debug)]
pub struct UserAnswer {
    /// Its code. `0` is success.
    pub code: i32,
    /// The bytes of the name in the user's entry, where it has one.
    pub name: Option<Vec<u8>>,
}

/// The name that an answer gives: that of the entry, where there is one and its name is text.
pub open spec fn answer_name(answer: UserAnswer) -> Option<Seq<char>> {
    match answer.name {
        Some(bytes) if answer.code == 0 => text::bytes_text(bytes@),
        _ => None,
    }
}

/// Whether the user database can be asked with any buffer, and asks for no larger one than there
/// can be.
pub open spec fn can_be_asked<F: Fn(u32, usize) -> UserAnswer>(ask: &F) -> bool {
    &&& forall|uid: u32, size: usize| #[trigger] call_requires(ask, (uid, size))
    &&& forall|uid: u32, size: usize, answer: UserAnswer| #[trigger]
        call_ensures(ask, (uid, size), answer) && answer.code == ERANGE ==> size <= usize::MAX / 2
}

/// The size of the buffer after so many that were too small.
pub open spec fn buffer_size(tries: nat) -> int
    decreases tries,
{
    if tries == 0 {
        FIRST_BUFFER as int
    } else {
        2 * buffer_size((tries - 1) as nat)
    }
}

/// Whether the user database can find a buffer too small for a user's entry.
pub open spec fn too_small<F: Fn(u32, usize) -> UserAnswer>(ask: &F, uid: u32, size: int) -> bool {
    exists|answer: UserAnswer|
        answer.code == ERANGE && #[trigger] call_ensures(ask, (uid, size as usize), answer)
}

/// Whether `answer` can be the first that does not say that the buffer was too small.
pub open spec fn first_answer<F: Fn(u32, usize) -> UserAnswer>(
    ask: &F,
    uid: u32,
    tries: nat,
    answer: UserAnswer,
) -> bool {
    &&& answer.code != ERANGE
    &&& buffer_size(tries) <= usize::MAX
    &&& call_ensures(ask, (uid, buffer_size(tries) as usize), answer)
    &&& forall|i: nat| i < tries ==> too_small(ask, uid, #[trigger] buffer_size(i))
}

/// Whether a lookup can find `found` for a user.
pub open spec fn finds<F: Fn(u32, usize) -> UserAnswer>(
    ask: &F,
    uid: u32,
    found: Option<Seq<char>>,
) -> bool {
    exists|tries: nat, answer: UserAnswer|
        #[trigger] first_answer(ask, uid, tries, answer) && answer_name(answer) == found
}

/// The name that an answer gives.
pub fn answered_name(answer: UserAnswer) -> (name: Option<String>)
    ensures
        text::view_of(name) == answer_name(answer),
{
    if answer.code != 0 {
        return None;
    }
    match answer.name {
        Some(bytes) => text::utf8_text(&bytes),
        None => None,
    }
}

/// Resolve a UID to a username via `getpwuid_r`, which `ask` calls with the user and the size of
/// its buffer.
pub fn lookup_username<F: Fn(u32, usize) -> UserAnswer>(uid: u32, ask: &F) -> (name: Option<String>)
    requires
        can_be_asked(ask),
    ensures
        finds(ask, uid, text::view_of(name)),
{
    let mut size: usize = FIRST_BUFFER;
    let ghost mut tries: nat = 0;
    loop
        invariant
            can_be_asked(ask),
            size == buffer_size(tries),
            size > 0,
            forall|i: nat| i < tries ==> too_small(ask, uid, #[trigger] buffer_size(i)),
        decreases usize::MAX - size,
    {
        let answer: UserAnswer = ask(uid, size);
        if answer.code != ERANGE {
            let ghost last = answer;
            let name: Option<String> = answered_name(answer);
            assert(first_answer(ask, uid, tries, last));
            return name;
        }
        // Buffer too small, grow and retry
        assert(too_small(ask, uid, buffer_size(tries)));
        size = size * 2;
        proof {
            tries = tries + 1;
        }
    }
}

impl View for UidCache {
    type V = KnownNames;

    closed spec fn view(&self) -> KnownNames {
        KnownNames {
            names: self.cache@.map_values(
                |entry: CacheEntry|
                    KnownName { username: entry.username@, inserted_at: entry.inserted_at },
            ),
            ttl_secs: self.ttl_secs,
            epoch: self.epoch,
        }
    }
}

impl UidCache {
    /// A cache that knows nothing and keeps names for five minutes.
    pub fn new() -> (cache: UidCache)
        ensures
            cache@.names == Map::<u32, KnownName>::empty(),
            cache@.ttl_secs == DEFAULT_TTL_SECS,
            clock_started(cache@.epoch),
    {
        UidCache::with_ttl(DEFAULT_TTL_SECS)
    }

    /// A cache that knows nothing and keeps names for `ttl_secs` seconds. With `0` none is ever
    /// answered from the cache.
    pub fn with_ttl(ttl_secs: u64) -> (cache: UidCache)
        ensures
            cache@.names == Map::<u32, KnownName>::empty(),
            cache@.ttl_secs == ttl_secs,
            clock_started(cache@.epoch),
    {
        let cache: UidCache = UidCache { cache: HashMap::new(), ttl_secs, epoch: instant_now() };
        assert(cache@.names =~= Map::<u32, KnownName>::empty());
        cache
    }

    /// The name for `uid`, where it is known at the time `now`.
    pub fn cached(&self, uid: u32, now: u128) -> (name: Option<String>)
        ensures
            name is Some <==> self@.fresh(uid, now),
            name matches Some(n) ==> n@ == self@.names[uid].username,
    {
        match self.cache.get(&uid) {
            Some(entry) => {
                let age: u128 = if entry.inserted_at <= now {
                    now - entry.inserted_at
                } else {
                    0
                };
                let ttl: u128 = self.ttl_secs as u128 * NANOS_PER_SEC;
                if age < ttl {
                    Some(entry.username.clone())
                } else {
                    None
                }
            },
            None => None,
        }
    }

    /// Takes in what a lookup at the time `now` found for `uid`, and gives the name to use.
    pub fn remember(&mut self, uid: u32, now: u128, found: Option<String>) -> (name: String)
        ensures
            name@ == name_or_number(uid, text::view_of(found)),
            final(self)@ == old(self)@.learned(uid, now, name@),
    {
        let name: String = match found {
            Some(name) => name,
            None => text::decimal_text(uid as u64),
        };
        self.cache.insert(uid, CacheEntry { username: name.clone(), inserted_at: now });
        assert(self@.names =~= old(self)@.learned(uid, now, name@).names);
        name
    }

    /// Resolves a UID to a username at the time `now`, in nanoseconds since the cache was made.
    /// `ask` puts a question to the user database, as [`lookup_username`] has it.
    pub fn resolve_at<F: Fn(u32, usize) -> UserAnswer>(
        &mut self,
        uid: u32,
        now: u128,
        ask: &F,
    ) -> (name: String)
        requires
            can_be_asked(ask),
        ensures
            old(self)@.resolves_at(ask, uid, now, name@, final(self)@),
            old(self)@.fresh(uid, now) ==> *final(self) == *old(self),
    {
        match self.cached(uid, now) {
            Some(name) => {
                assert(old(self)@.answer(uid, now, None) == name@);
                name
            },
            None => {
                let found: Option<String> = lookup_username(uid, ask);
                let ghost seen = text::view_of(found);
                let name: String = self.remember(uid, now, found);
                assert(old(self)@.answer(uid, now, seen) == name@);
                name
            },
        }
    }

    /// Resolves a UID to a username, using the cache if available.
    /// Falls back to the stringified UID on lookup failure. `ask` puts a question to the user
    /// database, as [`lookup_username`] has it.
    pub fn resolve<F: Fn(u32, usize) -> UserAnswer>(&mut self, uid: u32, ask: &F) -> (name: String)
        requires
            can_be_asked(ask),
        ensures
            old(self)@.can_resolve(ask, uid, name@, final(self)@),
    {
        let now: u128 = nanos_since(&self.epoch);
        self.resolve_at(uid, now, ask)
    }
}

impl Default for UidCache {
    fn default() -> (cache: UidCache)
        ensures
            cache@.names == Map::<u32, KnownName>::empty(),
            cache@.ttl_secs == DEFAULT_TTL_SECS,
            clock_started(cache@.epoch),
    {
        UidCache::new()
    }
}

/// While a name is fresh, every answer is that name and nothing new is learned, whatever a
/// lookup would find.
pub proof fn fresh_names_are_repeated(
    known: KnownNames,
    uid: u32,
    now: u128,
    found: Option<Seq<char>>,
)
    requires
        known.fresh(uid, now),
    ensures
        known.answer(uid, now, found) == known.names[uid].username,
        known.after(uid, now, found) == known,
{
}

/// An answer is given again for as long as the TTL lasts: two answers for one user agree, where
/// the second comes less than the TTL after the first was learned.
pub proof fn answers_are_consistent(
    known: KnownNames,
    uid: u32,
    now: u128,
    found: Option<Seq<char>>,
    later: u128,
    found_later: Option<Seq<char>>,
)
    requires
        time_between(
            if known.fresh(uid, now) {
                known.names[uid].inserted_at
            } else {
                now
            },
            later,
        ) < known.ttl_secs * NANOS_PER_SEC,
    ensures
        known.after(uid, now, found).answer(uid, later, found_later) == known.answer(
            uid,
            now,
            found,
        ),
        known.after(uid, now, found).after(uid, later, found_later) == known.after(uid, now, found),
{
}

/// Once the TTL is over, the answer is what a lookup finds then.
pub proof fn expired_names_are_looked_up(
    known: KnownNames,
    uid: u32,
    now: u128,
    found: Option<Seq<char>>,
)
    requires
        known.names.contains_key(uid) ==> time_between(known.names[uid].inserted_at, now)
            >= known.ttl_secs * NANOS_PER_SEC,
    ensures
        known.answer(uid, now, found) == name_or_number(uid, found),
        known.after(uid, now, found) == known.learned(uid, now, name_or_number(uid, found)),
{
}

/// A TTL of zero disables caching: every answer is what a lookup finds.
pub proof fn zero_ttl_disables_caching(
    known: KnownNames,
    uid: u32,
    now: u128,
    found: Option<Seq<char>>,
)
    requires
        known.ttl_secs == 0,
    ensures
        !known.fresh(uid, now),
        known.answer(uid, now, found) == name_or_number(uid, found),
{
}

/// A user whom the lookup does not find, and of whom nothing is known, is shown by number.
pub proof fn unknown_users_are_numbers(known: KnownNames, uid: u32, now: u128)
    requires
        !known.fresh(uid, now),
    ensures
        known.answer(uid, now, None) == text::decimal(uid as nat),
{
}

/// A question for the name of a user: whose, when, and what a lookup finds then.
pub struct Question {
    pub uid: u32,
    pub now: u128,
    pub found: Option<Seq<char>>,
}

/// What is known after these questions, one after the other.
pub open spec fn after_all(known: KnownNames, questions: Seq<Question>) -> KnownNames
    decreases questions.len(),
{
    if questions.len() == 0 {
        known
    } else {
        let last = questions.last();
        after_all(known, questions.drop_last()).after(last.uid, last.now, last.found)
    }
}

/// Whether the question at place `i` is the one by which the name for `uid` was learned: it was
/// looked up then, and the name that is known and its time are those of that lookup.
pub open spec fn learned_by(known: KnownNames, questions: Seq<Question>, i: int, uid: u32) -> bool {
    let question = questions[i];
    let name = after_all(known, questions).names[uid];
    &&& 0 <= i < questions.len()
    &&& question.uid == uid
    &&& !after_all(known, questions.take(i)).fresh(uid, question.now)
    &&& name.username == name_or_number(uid, question.found)
    &&& name.inserted_at == question.now
}

proof fn lemma_names_were_learned(known: KnownNames, questions: Seq<Question>, uid: u32) -> (i: int)
    requires
        known.names == Map::<u32, KnownName>::empty(),
        after_all(known, questions).names.contains_key(uid),
    ensures
        learned_by(known, questions, i, uid),
    decreases questions.len(),
{
    let rest = questions.drop_last();
    let last = questions.last();
    let before = after_all(known, rest);
    if last.uid == uid && !before.fresh(uid, last.now) {
        assert(questions.take(questions.len() - 1) =~= rest);
        questions.len() - 1
    } else {
        let i = lemma_names_were_learned(known, rest, uid);
        assert(questions.take(i) =~= rest.take(i));
        i
    }
}

proof fn lemma_settings_stay(known: KnownNames, questions: Seq<Question>)
    ensures
        after_all(known, questions).ttl_secs == known.ttl_secs,
        after_all(known, questions).epoch == known.epoch,
    decreases questions.len(),
{
    if questions.len() > 0 {
        lemma_settings_stay(known, questions.drop_last());
    }
}

/// An answer is never older than the TTL, however often it was asked for: after any questions to a
/// cache that knew nothing, a name that is answered without a lookup is what a lookup for one of
/// these questions found for that user, less than the TTL ago.
pub proof fn answers_are_never_stale(
    known: KnownNames,
    questions: Seq<Question>,
    uid: u32,
    now: u128,
    found: Option<Seq<char>>,
) -> (i: int)
    requires
        known.names == Map::<u32, KnownName>::empty(),
        forall|j: int| 0 <= j < questions.len() ==> (#[trigger] questions[j]).now <= now,
        after_all(known, questions).fresh(uid, now),
    ensures
        learned_by(known, questions, i, uid),
        now - questions[i].now < known.ttl_secs * NANOS_PER_SEC,
        after_all(known, questions).answer(uid, now, found) == name_or_number(
            uid,
            questions[i].found,
        ),
{
    lemma_settings_stay(known, questions);
    lemma_names_were_learned(known, questions, uid)
}

/// Asking for one user changes nothing that is known of another, nor the TTL, nor the moment that
/// times are counted from.
pub proof fn other_users_are_kept<F: Fn(u32, usize) -> UserAnswer>(
    known: KnownNames,
    ask: &F,
    uid: u32,
    name: Seq<char>,
    next: KnownNames,
    other: u32,
)
    requires
        known.can_resolve(ask, uid, name, next),
        other != uid,
    ensures
        next.names.contains_key(other) <==> known.names.contains_key(other),
        known.names.contains_key(other) ==> next.names[other] == known.names[other],
        next.ttl_secs == known.ttl_secs,
        next.epoch == known.epoch,
{
}

/// After an answer the name that was given is known.
pub proof fn answers_are_remembered<F: Fn(u32, usize) -> UserAnswer>(
    known: KnownNames,
    ask: &F,
    uid: u32,
    name: Seq<char>,
    next: KnownNames,
)
    requires
        known.can_resolve(ask, uid, name, next),
    ensures
        next.names.contains_key(uid),
        next.names[uid].username == name,
{
}

/// What a lookup finds is what one answer of the user database for that user says, of any length:
/// where the answer's code is 0 and it has a name that is valid UTF-8, the text that the name
/// decodes to, and else nothing. The answer is the first that does not find its buffer too small,
/// and each buffer is twice as large as the one before, the first being of 1024 bytes.
pub proof fn lookups_find_what_is_answered<F: Fn(u32, usize) -> UserAnswer>(
    ask: &F,
    uid: u32,
    found: Option<Seq<char>>,
) -> (last: (nat, UserAnswer))
    requires
        finds(ask, uid, found),
    ensures
        last.1.code != 34,
        1024 * pow2(last.0) <= usize::MAX,
        call_ensures(ask, (uid, (1024 * pow2(last.0)) as usize), last.1),
        forall|i: nat|
            i < last.0 ==> exists|answer: UserAnswer|
                answer.code == 34 && call_ensures(
                    ask,
                    (uid, (1024 * #[trigger] pow2(i)) as usize),
                    answer,
                ),
        match last.1.name {
            Some(bytes) if last.1.code == 0 && valid_utf8(bytes@) => found == Some(
                decode_utf8(bytes@),
            ),
            _ => found is None,
        },
{
    let (tries, answer) = choose|tries: nat, answer: UserAnswer|
        #[trigger] first_answer(ask, uid, tries, answer) && answer_name(answer) == found;
    lemma_buffers_double(tries);
    assert forall|i: nat| i < tries implies exists|small: UserAnswer|
        small.code == 34 && call_ensures(ask, (uid, (1024 * #[trigger] pow2(i)) as usize), small) by {
        lemma_buffers_double(i);
        assert(too_small(ask, uid, buffer_size(i)));
    }
    (tries, answer)
}

proof fn lemma_buffers_double(tries: nat)
    ensures
        buffer_size(tries) == 1024 * pow2(tries),
    decreases tries,
{
    if tries == 0 {
        lemma2_to64();
    } else {
        lemma_buffers_double((tries - 1) as nat);
        lemma_pow2_unfold(tries);
    }
}

/// Where an answer has the code 0 and a name whose bytes are valid UTF-8, of any length, its name
/// is the text that they decode to. No other answer has a name.
pub proof fn valid_names_are_given(answer: UserAnswer)
    ensures
        match answer.name {
            Some(bytes) if answer.code == 0 && valid_utf8(bytes@) => answer_name(answer) == Some(
                decode_utf8(bytes@),
            ),
            _ => answer_name(answer) is None,
        },
{
}

/// Resolving a user answers with the name that is known, and changes nothing, where that name was
/// learned less than the TTL ago, in whole seconds of a thousand million nanoseconds. Else it
/// answers with what a lookup finds, or with the user's number where it finds nothing, and from
/// then on just that is known of the user, as learned now.
pub proof fn users_are_resolved<F: Fn(u32, usize) -> UserAnswer>(
    known: KnownNames,
    ask: &F,
    uid: u32,
    now: u128,
    name: Seq<char>,
    next: KnownNames,
) -> (found: Option<Seq<char>>)
    requires
        known.resolves_at(ask, uid, now, name, next),
    ensures
        ({
            let hit = known.names.contains_key(uid) && {
                let learned = known.names[uid].inserted_at;
                let age: int = if now < learned {
                    0
                } else {
                    now - learned
                };
                age < known.ttl_secs * 1_000_000_000
            };
            &&& hit ==> name == known.names[uid].username && next == known
            &&& !hit ==> {
                &&& finds(ask, uid, found)
                &&& found matches Some(text) ==> name == text
                &&& found is None ==> name == text::decimal(uid as nat)
                &&& next.names == known.names.insert(
                    uid,
                    KnownName { username: name, inserted_at: now },
                )
                &&& next.ttl_secs == known.ttl_secs
                &&& next.epoch == known.epoch
            }
        }),
{
    choose|found: Option<Seq<char>>|
        {
            &&& !known.fresh(uid, now) ==> finds(ask, uid, found)
            &&& #[trigger] known.answer(uid, now, found) == name
            &&& known.after(uid, now, found) == next
        }
}

/// A name is answered without a lookup exactly where it is known and was learned less than the TTL
/// ago.
pub proof fn fresh_names_are_young(known: KnownNames, uid: u32, now: u128)
    ensures
        known.fresh(uid, now) <==> known.names.contains_key(uid) && {
            let learned = known.names[uid].inserted_at;
            if now < learned {
                known.ttl_secs > 0
            } else {
                now - learned < known.ttl_secs * 1_000_000_000
            }
        },
{
}

/// What is known once a name was learned is what was known before, but for that user's name and
/// time.
pub proof fn learning_sets_one_name(known: KnownNames, uid: u32, now: u128, name: Seq<char>)
    ensures
        known.learned(uid, now, name).names == known.names.insert(
            uid,
            KnownName { username: name, inserted_at: now },
        ),
        known.learned(uid, now, name).ttl_secs == known.ttl_secs,
        known.learned(uid, now, name).epoch == known.epoch,
{
}

/// The name for a user is the text that was found, or else the user's number.
pub proof fn found_names_are_used(uid: u32, found: Option<Seq<char>>)
    ensures
        found matches Some(name) ==> name_or_number(uid, found) == name,
        found is None ==> name_or_number(uid, found) == text::decimal(uid as nat),
{
}

/// What a cache holds is seen in full.
proof fn lemma_view_is_whole(cache: UidCache, uid: u32)
    ensures
        cache@.names.contains_key(uid) <==> cache.cache@.contains_key(uid),
        cache.cache@.contains_key(uid) ==> cache@.names[uid] == (KnownName {
            username: cache.cache@[uid].username@,
            inserted_at: cache.cache@[uid].inserted_at,
        }),
        cache@.ttl_secs == cache.ttl_secs,
        cache@.epoch == cache.epoch,
{
}

/// A name is taken from the cache exactly where it was learned less than the time to live ago, and
/// it is then the name that was learned.
pub proof fn cached_names_are_young(cache: UidCache, uid: u32, now: u128, name: Option<String>)
    requires
        call_ensures(UidCache::cached, (&cache, uid, now), name),
    ensures
        name is Some <==> cache@.names.contains_key(uid) && {
            let learned = cache@.names[uid].inserted_at;
            if now < learned {
                cache@.ttl_secs > 0
            } else {
                now - learned < cache@.ttl_secs * 1_000_000_000
            }
        },
        name matches Some(n) ==> n@ == cache@.names[uid].username,
{
    fresh_names_are_young(cache@, uid, now);
}

/// A cache starts empty. Unless told otherwise it keeps names for three hundred seconds.
pub proof fn caches_start_empty(ttl_secs: u64, usual: UidCache, told: UidCache)
    requires
        call_ensures(UidCache::new, (), usual),
        call_ensures(UidCache::with_ttl, (ttl_secs,), told),
    ensures
        usual@.ttl_secs == 300,
        told@.ttl_secs == ttl_secs,
        forall|uid: u32| !(#[trigger] usual@.names.contains_key(uid)),
        forall|uid: u32| !(#[trigger] told@.names.contains_key(uid)),
{
}

/// The name taken from an answer is the text that its bytes decode to, of any length, where the
/// answer has the code 0 and a name of valid UTF-8. From any other answer none is taken.
pub proof fn valid_names_are_taken(answer: UserAnswer, name: Option<String>)
    requires
        call_ensures(answered_name, (answer,), name),
    ensures
        match answer.name {
            Some(bytes) if answer.code == 0 && valid_utf8(bytes@) => name is Some
                && name->Some_0@ == decode_utf8(bytes@),
            _ => name is None,
        },
{
    valid_names_are_given(answer);
}

}
