use vstd::prelude::*;
use crate::decimal::{decimal, to_decimal};
use crate::text::{clone_strings, opt_view, views};

verus! {

/// The channels known to belong to a server (`_id` is the server id).
pub struct CAlias {
    pub _id: String,
    pub channels: Vec<String>,
}

/// A warning given to a member of a server, with its optional reason.
pub struct Warning {
    pub message: Option<String>,
    pub _id: String,
    pub user_id: String,
    pub server_id: String,
}

/// What a warning holds.
pub struct WarningView {
    pub message: Option<Seq<char>>,
    pub id: Seq<char>,
    pub user_id: Seq<char>,
    pub server_id: Seq<char>,
}

impl View for Warning {
    type V = WarningView;

    open spec fn view(&self) -> WarningView {
        WarningView {
            message: opt_view(self.message),
            id: self._id@,
            user_id: self.user_id@,
            server_id: self.server_id@,
        }
    }
}

impl CAlias {
    /// The channel ids, as text.
    pub open spec fn channel_views(&self) -> Seq<Seq<char>> {
        views(self.channels@)
    }

    /// The channels form a set: no id occurs twice.
    pub open spec fn wf(&self) -> bool {
        self.channel_views().no_duplicates()
    }
}

/// `existing` extended by each channel of `added` that it does not hold yet, in the
/// order of `added`.
pub open spec fn merge(existing: Seq<Seq<char>>, added: Seq<Seq<char>>) -> Seq<Seq<char>>
    decreases added.len(),
{
    if added.len() == 0 {
        existing
    } else {
        let m = merge(existing, added.drop_last());
        if m.contains(added.last()) {
            m
        } else {
            m.push(added.last())
        }
    }
}

/// Merging keeps what was there, adds what was asked, and holds nothing else.
pub proof fn lemma_merge_members(existing: Seq<Seq<char>>, added: Seq<Seq<char>>)
    ensures
        forall|c: Seq<char>| #[trigger]
            merge(existing, added).contains(c) <==> (existing.contains(c) || added.contains(c)),
        existing.no_duplicates() ==> merge(existing, added).no_duplicates(),
        existing.len() <= merge(existing, added).len(),
        forall|i: int|
            0 <= i < existing.len() ==> #[trigger] merge(existing, added)[i] == existing[i],
    decreases added.len(),
{
    if added.len() > 0 {
        let rest = added.drop_last();
        lemma_merge_members(existing, rest);
        let m = merge(existing, rest);
        assert forall|c: Seq<char>| #[trigger]
            merge(existing, added).contains(c) <==> (existing.contains(c) || added.contains(c)) by {
            if added.contains(c) && !rest.contains(c) {
                assert(c == added.last()) by {
                    let i = choose|i: int| 0 <= i < added.len() && added[i] == c;
                    if i < added.len() - 1 {
                        assert(rest[i] == c);
                    }
                }
                if !m.contains(c) {
                    assert(m.push(c)[m.len() as int] == c);
                }
            }
            if rest.contains(c) {
                let i = choose|i: int| 0 <= i < rest.len() && rest[i] == c;
                assert(added[i] == c);
            }
            if merge(existing, added).contains(c) && !m.contains(c) {
                let i = choose|i: int|
                    0 <= i < merge(existing, added).len() && merge(existing, added)[i] == c;
                if i < m.len() {
                    assert(m[i] == c);
                }
                assert(added[added.len() - 1] == c);
            }
            if m.contains(c) && !m.contains(added.last()) {
                let i = choose|i: int| 0 <= i < m.len() && m[i] == c;
                assert(m.push(added.last())[i] == c);
            }
        }
    }
}

/// The set of channels that results from merging `added` into `existing`, as
/// `HashSet::extend` gives it: the union of both, each id once.
pub proof fn law_merge_is_union(existing: Seq<Seq<char>>, added: Seq<Seq<char>>)
    requires
        existing.no_duplicates(),
    ensures
        merge(existing, added).to_set() == existing.to_set().union(added.to_set()),
        merge(existing, added).no_duplicates(),
{
    lemma_merge_members(existing, added);
    assert(merge(existing, added).to_set() =~= existing.to_set().union(added.to_set()));
}

/// Adding channels that are already known changes nothing.
pub proof fn law_merge_known_is_identity(existing: Seq<Seq<char>>, added: Seq<Seq<char>>)
    requires
        forall|c: Seq<char>| added.contains(c) ==> existing.contains(c),
    ensures
        merge(existing, added) == existing,
    decreases added.len(),
{
    if added.len() > 0 {
        assert(added.contains(added.last())) by {
            assert(added[added.len() - 1] == added.last());
        }
        assert forall|c: Seq<char>| added.drop_last().contains(c) implies existing.contains(c) by {
            let i = choose|i: int| 0 <= i < added.drop_last().len() && added.drop_last()[i] == c;
            assert(added[i] == c);
        }
        law_merge_known_is_identity(existing, added.drop_last());
    }
}

/// The channels of `existing` extended by those of `added` that it lacks.
pub fn merge_channels(existing: &Vec<String>, added: &Vec<String>) -> (r: Vec<String>)
    ensures
        views(r@) == merge(views(existing@), views(added@)),
{
    let mut r = clone_strings(existing);
    for i in 0..added.len()
        invariant
            views(r@) == merge(views(existing@), views(added@.subrange(0, i as int))),
    {
        let ghost before = views(r@);
        assert(views(added@.subrange(0, i + 1)).drop_last() =~= views(added@.subrange(0, i as int)));
        assert(views(added@.subrange(0, i + 1)).last() == added@[i as int]@);
        if !crate::text::contains_string(&r, &added[i]) {
            r.push(added[i].clone());
            assert(views(r@) =~= before.push(added@[i as int]@));
        }
    }
    assert(added@.subrange(0, added.len() as int) =~= added@);
    r
}

/// What to write for `doc` when the stored record of its server is `existing`.
pub enum AliasWrite {
    /// Store `doc` as a new record.
    Insert(CAlias),
    /// Replace the channels of the record with id `id`.
    SetChannels { id: String, channels: Vec<String> },
}

/// `Db::c_alias_insert`'s decision: a new server gets `doc`; a known one gets the
/// union of its channels and those of `doc`.
pub fn plan_alias_insert(existing: Option<CAlias>, doc: CAlias) -> (w: AliasWrite)
    ensures
        match existing {
            None => w == AliasWrite::Insert(doc),
            Some(data) => match w {
                AliasWrite::SetChannels { id, channels } => id@ == doc._id@ && views(channels@)
                    == merge(views(data.channels@), views(doc.channels@)),
                _ => false,
            },
        },
{
    match existing {
        None => AliasWrite::Insert(doc),
        Some(data) => {
            let channels = merge_channels(&data.channels, &doc.channels);
            AliasWrite::SetChannels { id: doc._id, channels }
        },
    }
}

/// The record that `Db::c_alias_poll` stores for a channel of an unknown server: the
/// server's id with that one channel. `None` when the channel has no server.
pub fn alias_for_channel(channel_id: String, server_id: Option<String>) -> (r: Option<CAlias>)
    ensures
        match server_id {
            None => r is None,
            Some(id) => match r {
                Some(a) => a._id@ == id@ && a.channel_views() == seq![channel_id@] && a.wf(),
                None => false,
            },
        },
{
    match server_id {
        None => None,
        Some(id) => {
            let mut channels: Vec<String> = Vec::new();
            channels.push(channel_id);
            let a = CAlias { _id: id, channels };
            assert(a.channel_views() =~= seq![channel_id@]);
            Some(a)
        },
    }
}

/// Calls `rand::random::<u32>()`. Nothing is claimed of the number: it comes from the
/// thread-local generator and differs from call to call.
#[verifier::external_body]
fn random_u32() -> u32 {
    rand::random::<u32>()
}

/// The id of a warning: a random `u32` in decimal.
pub open spec fn is_warning_id(id: Seq<char>) -> bool {
    exists|n: u32| id == decimal(n as nat)
}

/// A new warning for `user_id` on `server_id`, with a random id.
pub fn new_warning(server_id: String, user_id: String, reason: Option<String>) -> (w: Warning)
    ensures
        w.server_id@ == server_id@,
        w.user_id@ == user_id@,
        opt_view(w.message) == opt_view(reason),
        is_warning_id(w._id@),
{
    let n = random_u32();
    let id = to_decimal(n as u64);
    assert(id@ == decimal(n as nat));
    Warning { message: reason, _id: id, user_id, server_id }
}

} // verus!
