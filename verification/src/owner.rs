//! User and group identities: a table of known identities for one listing
//! pass, and a cache that memoizes lookups so the table is consulted at
//! most once per distinct id.

use vstd::prelude::*;
use crate::config::EntryConst;
use crate::fmt::{dec_str, markup, markup_of, u64_to_dec};

verus! {

/// Whether an identity names a user or a group.
#[derive(Clone, Copy, Debug, PartialEq, Eq, Structural)]
pub enum IdKind {
    /// a user id
    User,
    /// a group id
    Group,
}

/// A resolved user or group id together with its display name (absent when
/// the id has no directory-service entry) and its highlight state (whether
/// the id matches the invoking process's effective user/group).
#[derive(Debug, PartialEq)]
pub struct Identity {
    /// the numeric id
    pub id: u32,
    /// the resolved display name, if any
    pub name: Option<String>,
    /// whether the id is the invoking process's own user/group
    pub is_self: bool,
    /// whether this is a user or a group identity
    pub kind: IdKind,
}

impl Identity {
    /// The style directives that apply to this identity.
    pub open spec fn style_of(&self, entry_const: EntryConst) -> Seq<char> {
        match self.kind {
            IdKind::User => if self.is_self {
                entry_const.user_curr_style@
            } else {
                entry_const.user_other_style@
            },
            IdKind::Group => if self.is_self {
                entry_const.group_curr_style@
            } else {
                entry_const.group_other_style@
            },
        }
    }

    /// What the name rendering shows: the display name when one is known,
    /// the numeric id otherwise.
    pub open spec fn shown_name(&self) -> Seq<char> {
        match self.name {
            Some(n) => n@,
            None => dec_str(self.id as nat),
        }
    }

    /// An identical copy of this identity.
    pub fn dup(&self) -> (r: Identity)
        ensures
            r == *self,
    {
        let name = match &self.name {
            Some(n) => Some(n.clone()),
            None => None,
        };
        Identity { id: self.id, name, is_self: self.is_self, kind: self.kind }
    }

    /// Render the display name (or the id, when no name is known),
    /// highlighted when the identity is the invoking user's own.
    pub fn name(&self, entry_const: &EntryConst) -> (r: String)
        ensures
            r@ == markup_of(self.style_of(*entry_const), self.shown_name()),
    {
        let style = self.style_str(entry_const);
        match &self.name {
            Some(n) => markup(style, n.as_str()),
            None => {
                let value = u64_to_dec(self.id as u64);
                markup(style, value.as_str())
            },
        }
    }

    /// Render the numeric id, highlighted when the identity is the
    /// invoking user's own.
    pub fn id(&self, entry_const: &EntryConst) -> (r: String)
        ensures
            r@ == markup_of(self.style_of(*entry_const), dec_str(self.id as nat)),
    {
        let style = self.style_str(entry_const);
        let value = u64_to_dec(self.id as u64);
        markup(style, value.as_str())
    }

    /// The style directives that apply to this identity.
    fn style_str<'a>(&self, entry_const: &'a EntryConst) -> (r: &'a str)
        ensures
            r@ == self.style_of(*entry_const),
    {
        match self.kind {
            IdKind::User => if self.is_self {
                entry_const.user_curr_style.as_str()
            } else {
                entry_const.user_other_style.as_str()
            },
            IdKind::Group => if self.is_self {
                entry_const.group_curr_style.as_str()
            } else {
                entry_const.group_other_style.as_str()
            },
        }
    }
}

/// The name recorded for `id` in a table of identity entries: the first
/// entry with that id decides; an absent entry means no name.
pub open spec fn find_name(entries: Seq<(u32, Option<String>)>, id: u32) -> Option<String>
    decreases entries.len(),
{
    if entries.len() == 0 {
        None
    } else if entries[0].0 == id {
        entries[0].1
    } else {
        find_name(entries.drop_first(), id)
    }
}

/// A counter bumped by one, saturating at its maximum.
pub open spec fn bumped(l: u64) -> u64 {
    if l < u64::MAX {
        (l + 1) as u64
    } else {
        l
    }
}

/// The identity database for one listing pass: the user and group entries
/// the pass can see, the invoking process's own ids, and a counter of how
/// many lookups were performed against the table.
pub struct IdentitySource {
    /// known user entries, id to optional name
    pub users: Vec<(u32, Option<String>)>,
    /// known group entries, id to optional name
    pub groups: Vec<(u32, Option<String>)>,
    /// the invoking process's effective user id
    pub current_uid: u32,
    /// the invoking process's effective group id
    pub current_gid: u32,
    /// how many lookups have consulted the table
    pub lookups: u64,
}

impl IdentitySource {
    /// The user identity this table resolves `uid` to.
    pub open spec fn user_identity(&self, uid: u32) -> Identity {
        Identity {
            id: uid,
            name: find_name(self.users@, uid),
            is_self: uid == self.current_uid,
            kind: IdKind::User,
        }
    }

    /// The group identity this table resolves `gid` to.
    pub open spec fn group_identity(&self, gid: u32) -> Identity {
        Identity {
            id: gid,
            name: find_name(self.groups@, gid),
            is_self: gid == self.current_gid,
            kind: IdKind::Group,
        }
    }

    /// The same table after one more lookup.
    pub open spec fn after_lookup(&self) -> IdentitySource {
        IdentitySource {
            users: self.users,
            groups: self.groups,
            current_uid: self.current_uid,
            current_gid: self.current_gid,
            lookups: bumped(self.lookups),
        }
    }

    /// Resolve a user id against the table; counts as one lookup.
    pub fn lookup_user(&mut self, uid: u32) -> (r: Identity)
        ensures
            *final(self) == old(self).after_lookup(),
            r == old(self).user_identity(uid),
    {
        self.lookups = if self.lookups < u64::MAX {
            self.lookups + 1
        } else {
            self.lookups
        };
        let name = find_name_in(&self.users, uid);
        Identity { id: uid, name, is_self: uid == self.current_uid, kind: IdKind::User }
    }

    /// Resolve a group id against the table; counts as one lookup.
    pub fn lookup_group(&mut self, gid: u32) -> (r: Identity)
        ensures
            *final(self) == old(self).after_lookup(),
            r == old(self).group_identity(gid),
    {
        self.lookups = if self.lookups < u64::MAX {
            self.lookups + 1
        } else {
            self.lookups
        };
        let name = find_name_in(&self.groups, gid);
        Identity { id: gid, name, is_self: gid == self.current_gid, kind: IdKind::Group }
    }
}

/// Scan a table of entries for the first one carrying `id`.
fn find_name_in(entries: &Vec<(u32, Option<String>)>, id: u32) -> (r: Option<String>)
    ensures
        r == find_name(entries@, id),
{
    let n = entries.len();
    let mut i: usize = 0;
    proof {
        assert(entries@.skip(0) =~= entries@);
    }
    while i < n
        invariant
            i <= n,
            n == entries@.len(),
            find_name(entries@, id) == find_name(entries@.skip(i as int), id),
        decreases n - i,
    {
        proof {
            assert(entries@.skip(i as int)[0] == entries@[i as int]);
        }
        if entries[i].0 == id {
            let r = match &entries[i].1 {
                Some(name) => Some(name.clone()),
                None => None,
            };
            return r;
        }
        proof {
            assert(entries@.skip(i as int).drop_first() =~= entries@.skip(i + 1));
        }
        i = i + 1;
    }
    proof {
        assert(entries@.skip(i as int).len() == 0);
    }
    None
}

/// The cached identity recorded for `id`, if any: the first cache entry
/// with that id.
pub open spec fn find_cached(entries: Seq<(u32, Identity)>, id: u32) -> Option<Identity>
    decreases entries.len(),
{
    if entries.len() == 0 {
        None
    } else if entries[0].0 == id {
        Some(entries[0].1)
    } else {
        find_cached(entries.drop_first(), id)
    }
}

/// Memoizes id-to-identity resolution for the lifetime of one listing
/// pass: the first call for a given id consults the identity table,
/// subsequent calls are answered from the cache, and entries are never
/// evicted within the pass.
pub struct IdentityCache {
    /// the identity table the cache resolves against
    pub source: IdentitySource,
    /// memoized user identities
    pub users: Vec<(u32, Identity)>,
    /// memoized group identities
    pub groups: Vec<(u32, Identity)>,
}

impl IdentityCache {
    /// Every cached entry agrees with what the table resolves its id to.
    pub open spec fn wf(&self) -> bool {
        &&& forall|i: int|
            0 <= i < self.users@.len() ==> (#[trigger] self.users@[i]).1
                == self.source.user_identity(self.users@[i].0)
        &&& forall|i: int|
            0 <= i < self.groups@.len() ==> (#[trigger] self.groups@[i]).1
                == self.source.group_identity(self.groups@[i].0)
    }

    /// The cached user identity for `uid`, if one is memoized.
    pub open spec fn cached_user(&self, uid: u32) -> Option<Identity> {
        find_cached(self.users@, uid)
    }

    /// The cached group identity for `gid`, if one is memoized.
    pub open spec fn cached_group(&self, gid: u32) -> Option<Identity> {
        find_cached(self.groups@, gid)
    }

    /// A cache over `source` with nothing memoized yet.
    pub fn new(source: IdentitySource) -> (r: IdentityCache)
        ensures
            r.wf(),
            r.source == source,
            r.users@.len() == 0,
            r.groups@.len() == 0,
    {
        IdentityCache { source, users: Vec::new(), groups: Vec::new() }
    }

    /// Resolve a user id, memoized: a hit answers from the cache and does
    /// not consult the table; a miss consults it exactly once and caches
    /// the result. Two calls with the same id therefore perform one lookup
    /// and return identical results.
    pub fn user(&mut self, uid: u32) -> (r: Identity)
        ensures
            old(self).wf() ==> final(self).wf(),
            old(self).wf() ==> r == old(self).source.user_identity(uid),
            final(self).cached_user(uid) == Some(r),
            final(self).source.users == old(self).source.users,
            final(self).source.groups == old(self).source.groups,
            final(self).source.current_uid == old(self).source.current_uid,
            final(self).source.current_gid == old(self).source.current_gid,
            final(self).groups == old(self).groups,
            old(self).cached_user(uid) is Some ==> *final(self) == *old(self),
            old(self).cached_user(uid) is None ==> final(self).source.lookups == bumped(
                old(self).source.lookups,
            ),
    {
        let cached = find_cached_in(&self.users, uid);
        match cached {
            Some(identity) => {
                proof {
                    if old(self).wf() {
                        lemma_find_cached_sound(old(self).users@, uid);
                    let i = choose|i: int|
                        0 <= i < old(self).users@.len() && (#[trigger] old(self).users@[i]).0
                            == uid && Some(old(self).users@[i].1) == find_cached(
                            old(self).users@,
                            uid,
                        );
                        assert(old(self).users@[i].1 == old(self).source.user_identity(
                            old(self).users@[i].0,
                        ));
                    }
                }
                identity
            },
            None => {
                let identity = self.source.lookup_user(uid);
                self.users.push((uid, identity.dup()));
                proof {
                    lemma_find_cached_push(old(self).users@, uid, identity);
                }
                identity
            },
        }
    }

    /// Resolve a group id, memoized, exactly as [`Self::user`] does for
    /// user ids.
    pub fn group(&mut self, gid: u32) -> (r: Identity)
        ensures
            old(self).wf() ==> final(self).wf(),
            old(self).wf() ==> r == old(self).source.group_identity(gid),
            final(self).cached_group(gid) == Some(r),
            final(self).source.users == old(self).source.users,
            final(self).source.groups == old(self).source.groups,
            final(self).source.current_uid == old(self).source.current_uid,
            final(self).source.current_gid == old(self).source.current_gid,
            final(self).users == old(self).users,
            old(self).cached_group(gid) is Some ==> *final(self) == *old(self),
            old(self).cached_group(gid) is None ==> final(self).source.lookups == bumped(
                old(self).source.lookups,
            ),
    {
        let cached = find_cached_in(&self.groups, gid);
        match cached {
            Some(identity) => {
                proof {
                    if old(self).wf() {
                        lemma_find_cached_sound(old(self).groups@, gid);
                    let i = choose|i: int|
                        0 <= i < old(self).groups@.len() && (#[trigger] old(self).groups@[i]).0
                            == gid && Some(old(self).groups@[i].1) == find_cached(
                            old(self).groups@,
                            gid,
                        );
                        assert(old(self).groups@[i].1 == old(self).source.group_identity(
                            old(self).groups@[i].0,
                        ));
                    }
                }
                identity
            },
            None => {
                let identity = self.source.lookup_group(gid);
                self.groups.push((gid, identity.dup()));
                proof {
                    lemma_find_cached_push(old(self).groups@, gid, identity);
                }
                identity
            },
        }
    }
}

/// Appending a fresh entry leaves every other id's cached answer alone and
/// records the new one, when the id was not cached before.
proof fn lemma_find_cached_push(entries: Seq<(u32, Identity)>, id: u32, identity: Identity)
    requires
        find_cached(entries, id) is None,
    ensures
        find_cached(entries.push((id, identity)), id) == Some(identity),
        forall|other: u32|
            other != id ==> #[trigger] find_cached(entries.push((id, identity)), other)
                == find_cached(entries, other),
    decreases entries.len(),
{
    if entries.len() == 0 {
        assert forall|other: u32| other != id implies #[trigger] find_cached(
            entries.push((id, identity)),
            other,
        ) == find_cached(entries, other) by {
            assert(entries.push((id, identity)).drop_first() =~= entries);
        }
        assert(find_cached(entries.push((id, identity)), id) == Some(identity));
    } else {
        lemma_find_cached_push(entries.drop_first(), id, identity);
        assert(entries.push((id, identity)).drop_first() =~= entries.drop_first().push(
            (id, identity),
        ));
        assert(entries.push((id, identity))[0] == entries[0]);
        assert forall|other: u32| other != id implies #[trigger] find_cached(
            entries.push((id, identity)),
            other,
        ) == find_cached(entries, other) by {
            if entries[0].0 != other {
                assert(find_cached(entries.push((id, identity)), other) == find_cached(
                    entries.push((id, identity)).drop_first(),
                    other,
                ));
            }
        }
    }
}

/// When a cache holds an answer for `id`, some entry of the cache carries
/// exactly that answer under that id.
proof fn lemma_find_cached_sound(entries: Seq<(u32, Identity)>, id: u32)
    requires
        find_cached(entries, id) is Some,
    ensures
        exists|i: int|
            0 <= i < entries.len() && (#[trigger] entries[i]).0 == id && Some(entries[i].1)
                == find_cached(entries, id),
    decreases entries.len(),
{
    if entries[0].0 == id {
        assert(entries[0].0 == id && Some(entries[0].1) == find_cached(entries, id));
    } else {
        lemma_find_cached_sound(entries.drop_first(), id);
        let i = choose|i: int|
            0 <= i < entries.drop_first().len() && (#[trigger] entries.drop_first()[i]).0 == id
                && Some(entries.drop_first()[i].1) == find_cached(entries.drop_first(), id);
        assert(entries[i + 1] == entries.drop_first()[i]);
    }
}

/// Scan a cache for the first entry carrying `id`.
fn find_cached_in(entries: &Vec<(u32, Identity)>, id: u32) -> (r: Option<Identity>)
    ensures
        r == find_cached(entries@, id),
{
    let n = entries.len();
    let mut i: usize = 0;
    proof {
        assert(entries@.skip(0) =~= entries@);
    }
    while i < n
        invariant
            i <= n,
            n == entries@.len(),
            find_cached(entries@, id) == find_cached(entries@.skip(i as int), id),
        decreases n - i,
    {
        proof {
            assert(entries@.skip(i as int)[0] == entries@[i as int]);
        }
        if entries[i].0 == id {
            return Some(entries[i].1.dup());
        }
        proof {
            assert(entries@.skip(i as int).drop_first() =~= entries@.skip(i + 1));
        }
        i = i + 1;
    }
    proof {
        assert(entries@.skip(i as int).len() == 0);
    }
    None
}

} // verus!
