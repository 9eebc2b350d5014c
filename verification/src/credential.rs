//! The credential, the slot that holds at most one of them, and the handle
//! through which the slot is built exactly once.

use vstd::prelude::*;

verus! {

/// An instant: whole seconds since the Unix epoch and the nanoseconds that
/// have passed within that second.
#[derive(Clone, Copy, Debug, PartialEq, Eq, Structural)]
pub struct Timestamp {
    pub secs: i64,
    pub nanos: u32,
}

/// A credential counts as expired this many seconds before its expiry, so that
/// a request sent with it still arrives in time.
pub const EXPIRY_MARGIN_SECS: i64 = 10;

impl Timestamp {
    /// Whether this instant, moved `margin` seconds ahead, is at or after
    /// `other`. Instants are ordered by their seconds first.
    pub open spec fn reaches(self, margin: int, other: Timestamp) -> bool {
        self.secs + margin > other.secs || (self.secs + margin == other.secs && self.nanos
            >= other.nanos)
    }
}

/// An access token with its expiry and the material needed to renew it.
#[derive(Debug, PartialEq, Eq)]
pub struct Credential {
    pub access_token: String,
    /// The lifetime the token was issued with, in seconds.
    pub expires_in: i64,
    /// When the token stops being valid; a token without an expiry is treated
    /// as expired.
    pub expires_at: Option<Timestamp>,
    pub refresh_token: Option<String>,
    pub scopes: Vec<String>,
}

/// A credential as the contracts see it. The scopes are a set: neither their
/// order nor a repetition among them means anything.
pub struct CredentialView {
    pub access_token: Seq<char>,
    pub expires_in: int,
    pub expires_at: Option<Timestamp>,
    pub refresh_token: Option<Seq<char>>,
    pub scopes: Set<Seq<char>>,
}

/// The characters of each string of a list.
pub open spec fn texts(strings: Seq<String>) -> Seq<Seq<char>> {
    strings.map_values(|s: String| s@)
}

/// The characters of a string that may be missing.
pub open spec fn optional_text(string: Option<String>) -> Option<Seq<char>> {
    match string {
        Some(s) => Some(s@),
        None => None,
    }
}

/// The view of a credential that may be missing.
pub open spec fn optional_credential(credential: Option<Credential>) -> Option<CredentialView> {
    match credential {
        Some(c) => Some(c@),
        None => None,
    }
}

impl CredentialView {
    /// Expired at `now`: there is no expiry, or `now` is within the margin of
    /// it or past it.
    pub open spec fn expired_at(self, now: Timestamp) -> bool {
        match self.expires_at {
            None => true,
            Some(expiry) => now.reaches(EXPIRY_MARGIN_SECS as int, expiry),
        }
    }
}

impl View for Credential {
    type V = CredentialView;

    open spec fn view(&self) -> CredentialView {
        CredentialView {
            access_token: self.access_token@,
            expires_in: self.expires_in as int,
            expires_at: self.expires_at,
            refresh_token: optional_text(self.refresh_token),
            scopes: texts(self.scopes@).to_set(),
        }
    }
}

/// Copies a list of strings.
pub fn copy_strings(strings: &Vec<String>) -> (copy: Vec<String>)
    ensures
        texts(copy@) == texts(strings@),
{
    let mut copy: Vec<String> = Vec::new();
    let mut next: usize = 0;
    while next < strings.len()
        invariant
            next <= strings.len(),
            copy@.len() == next,
            forall|i: int| 0 <= i < next ==> copy@[i]@ == strings@[i]@,
        decreases strings.len() - next,
    {
        copy.push(strings[next].clone());
        next = next + 1;
    }
    assert(texts(copy@) =~= texts(strings@));
    copy
}

/// Copies a string that may be missing.
pub fn copy_optional_string(string: &Option<String>) -> (copy: Option<String>)
    ensures
        optional_text(copy) == optional_text(*string),
{
    match string {
        Some(s) => Some(s.clone()),
        None => None,
    }
}

impl Clone for Credential {
    fn clone(&self) -> (copy: Credential)
        ensures
            copy@ == self@,
    {
        Credential {
            access_token: self.access_token.clone(),
            expires_in: self.expires_in,
            expires_at: self.expires_at,
            refresh_token: copy_optional_string(&self.refresh_token),
            scopes: copy_strings(&self.scopes),
        }
    }
}

impl Credential {
    /// Whether the credential is expired at `now`.
    pub fn is_expired_at(&self, now: Timestamp) -> (expired: bool)
        ensures
            expired == self@.expired_at(now),
    {
        match self.expires_at {
            None => true,
            Some(expiry) => {
                let ahead: i128 = now.secs as i128 + EXPIRY_MARGIN_SECS as i128;
                let limit: i128 = expiry.secs as i128;
                ahead > limit || (ahead == limit && now.nanos >= expiry.nanos)
            },
        }
    }
}

/// How a slot stands at some instant.
#[derive(Clone, Copy, Debug, PartialEq, Eq, Structural)]
pub enum Standing {
    /// The slot is empty.
    NoCredential,
    /// The slot holds a credential that can be used as it is.
    Valid,
    /// The slot holds a credential that has to be renewed first.
    Expired,
}

/// The standing of a slot's content at `now`.
pub open spec fn standing_at(content: Option<CredentialView>, now: Timestamp) -> Standing {
    match content {
        None => Standing::NoCredential,
        Some(credential) => if credential.expired_at(now) {
            Standing::Expired
        } else {
            Standing::Valid
        },
    }
}

/// Holds at most one credential. Writing takes the slot exclusively, so two
/// writes never interleave and a reader never sees a credential half written.
#[derive(Debug)]
pub struct CredentialSlot {
    content: Option<Credential>,
}

impl View for CredentialSlot {
    type V = Option<CredentialView>;

    closed spec fn view(&self) -> Option<CredentialView> {
        optional_credential(self.content)
    }
}

impl CredentialSlot {
    /// An empty slot.
    pub fn new() -> (slot: CredentialSlot)
        ensures
            slot@.is_none(),
    {
        CredentialSlot { content: None }
    }

    /// A slot that starts out with what was supplied from outside, if anything.
    pub fn with(supplied: Option<Credential>) -> (slot: CredentialSlot)
        ensures
            slot@ == optional_credential(supplied),
    {
        CredentialSlot { content: supplied }
    }

    /// A snapshot of the content. It may be out of date as soon as the slot is
    /// written again.
    pub fn get(&self) -> (snapshot: Option<Credential>)
        ensures
            optional_credential(snapshot) == self@,
    {
        match &self.content {
            Some(credential) => Some(credential.clone()),
            None => None,
        }
    }

    /// Replaces the content. Every later `get` sees the new credential.
    pub fn set(&mut self, credential: Credential)
        ensures
            final(self)@ == Some(credential@),
    {
        self.content = Some(credential);
    }

    /// How the slot stands at `now`.
    pub fn standing(&self, now: Timestamp) -> (standing: Standing)
        ensures
            standing == standing_at(self@, now),
    {
        match &self.content {
            None => Standing::NoCredential,
            Some(credential) => if credential.is_expired_at(now) {
                Standing::Expired
            } else {
                Standing::Valid
            },
        }
    }
}

/// The place where the one slot of a process lives. It starts out unbuilt; the
/// first `initialize_once` builds the slot and every later one finds it.
#[derive(Debug)]
pub struct SlotHandle {
    slot: Option<CredentialSlot>,
}

/// A handle as the contracts see it: `None` while the slot is unbuilt, then
/// what the slot holds.
pub type HandleView = Option<Option<CredentialView>>;

impl View for SlotHandle {
    type V = HandleView;

    closed spec fn view(&self) -> HandleView {
        match self.slot {
            Some(slot) => Some(slot@),
            None => None,
        }
    }
}

/// What one `initialize_once` does to a handle, for a caller whose factory
/// would make a slot that holds `made`: the handle afterwards, what the slot
/// that is handed out holds, and whether the factory ran.
pub open spec fn initialized_once(handle: HandleView, made: Option<CredentialView>) -> (
    HandleView,
    Option<CredentialView>,
    bool,
) {
    match handle {
        Some(held) => (handle, held, false),
        None => (Some(made), made, true),
    }
}

/// The handle after a row of callers, each of which would make the slot of
/// its place in `made`, have called `initialize_once` one after the other.
pub open spec fn handle_after_callers(handle: HandleView, made: Seq<Option<CredentialView>>)
    -> HandleView
    decreases made.len(),
{
    if made.len() == 0 {
        handle
    } else {
        initialized_once(handle_after_callers(handle, made.drop_last()), made.last()).0
    }
}

/// How many of a row of callers ran their factory.
pub open spec fn factories_run(handle: HandleView, made: Seq<Option<CredentialView>>) -> nat
    decreases made.len(),
{
    if made.len() == 0 {
        0
    } else {
        let ran = initialized_once(
            handle_after_callers(handle, made.drop_last()),
            made.last(),
        ).2;
        factories_run(handle, made.drop_last()) + if ran {
            1nat
        } else {
            0nat
        }
    }
}

/// What the call of the caller at `place` in a row of callers does.
pub open spec fn call_of_caller(
    handle: HandleView,
    made: Seq<Option<CredentialView>>,
    place: int,
) -> (HandleView, Option<CredentialView>, bool)
    recommends
        0 <= place < made.len(),
{
    initialized_once(handle_after_callers(handle, made.take(place)), made[place])
}

proof fn lemma_built_handle_stays(held: Option<CredentialView>, made: Seq<Option<CredentialView>>)
    ensures
        handle_after_callers(Some(held), made) == Some(held),
        factories_run(Some(held), made) == 0,
    decreases made.len(),
{
    if made.len() > 0 {
        lemma_built_handle_stays(held, made.drop_last());
    }
}

proof fn lemma_first_caller_builds(made: Seq<Option<CredentialView>>)
    requires
        made.len() >= 1,
    ensures
        handle_after_callers(None, made) == Some(made[0]),
        factories_run(None, made) == 1,
    decreases made.len(),
{
    if made.len() == 1 {
        assert(made.drop_last() =~= Seq::<Option<CredentialView>>::empty());
        assert(handle_after_callers(None, made.drop_last()) == None::<Option<CredentialView>>);
        assert(factories_run(None, made.drop_last()) == 0);
    } else {
        lemma_first_caller_builds(made.drop_last());
        assert(made.drop_last()[0] == made[0]);
    }
}

/// One construction for all callers. However many callers come to an unbuilt
/// handle, and in whatever order the handle takes them, exactly one factory
/// runs: that of the caller that comes first. Every caller is handed the slot
/// that this one factory made, and the handle holds it ever after.
pub proof fn lemma_one_construction_for_all_callers(
    made: Seq<Option<CredentialView>>,
    place: int,
)
    requires
        0 <= place < made.len(),
    ensures
        factories_run(None, made) == 1,
        handle_after_callers(None, made) == Some(made[0]),
        call_of_caller(None, made, place).1 == made[0],
        call_of_caller(None, made, place).2 == (place == 0),
        call_of_caller(None, made, place).0 == Some(made[0]),
{
    lemma_first_caller_builds(made);
    if place == 0 {
        assert(made.take(0) =~= Seq::<Option<CredentialView>>::empty());
    } else {
        lemma_first_caller_builds(made.take(place));
        assert(made.take(place)[0] == made[0]);
    }
}

impl SlotHandle {
    /// Whether the slot has been built.
    pub open spec fn is_initialized(&self) -> bool {
        self@ is Some
    }

    /// The content of the slot, once it has been built.
    pub open spec fn content(&self) -> Option<CredentialView> {
        self@.unwrap()
    }

    /// A handle whose slot has not been built yet.
    pub fn new() -> (handle: SlotHandle)
        ensures
            !handle.is_initialized(),
    {
        SlotHandle { slot: None }
    }

    /// Whether the slot has been built.
    pub fn initialized(&self) -> (built: bool)
        ensures
            built == self.is_initialized(),
    {
        self.slot.is_some()
    }

    /// Builds the slot with `factory` if it has not been built yet, and hands
    /// out the slot. Once built, the slot is found as it is: the factory is
    /// dropped unused and nothing changes. A factory has to be fit to run
    /// only where the slot is still unbuilt, so none is ever run on a slot
    /// that is built.
    pub fn initialize_once<F: FnOnce() -> CredentialSlot>(&mut self, factory: F) -> (slot:
        &mut CredentialSlot)
        requires
            !old(self).is_initialized() ==> factory.requires(()),
        ensures
            old(self).is_initialized() ==> slot@ == old(self).content(),
            !old(self).is_initialized() ==> factory.ensures((), *slot),
            exists|made: CredentialSlot|
                (!old(self).is_initialized() ==> factory.ensures((), made)) && slot@
                    == initialized_once(old(self)@, made@).1,
            final(self).is_initialized(),
            final(self).content() == final(slot)@,
    {
        if self.slot.is_none() {
            self.slot = Some(factory());
        }
        proof {
            let made = self.slot.unwrap();
            assert((!old(self).is_initialized() ==> factory.ensures((), made)) && made@
                == initialized_once(old(self)@, made@).1);
        }
        match &mut self.slot {
            Some(slot) => slot,
            None => unreached(),
        }
    }
}

} // verus!
