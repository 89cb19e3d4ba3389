//! The registry of online runners: a runner is registered when it greets
//! the API and removed when its socket closes; the dispatcher looks up a
//! runner serving a submission's board.

use crate::proto::{Board, ServerToRunner};
use dashmap::DashMap;
use tokio::sync::mpsc::UnboundedSender;
use vstd::prelude::*;

verus! {

/// One online runner.
#[derive(Debug, Clone)]
pub struct RunnerEntry {
    pub device_id: String,
    pub board: Board,
    pub cclk_hz: u64,
    pub synthetic: bool,
    /// Send side of the socket writer.
    pub tx: UnboundedSender<ServerToRunner>,
}

/// The concurrent map of online runners, keyed by device id.
pub type RunnerMap = DashMap<String, RunnerEntry>;

/// What the registry records of a runner: device, board, clock, whether
/// its cycle counts are fabricated, and the sender its jobs go out on.
pub type RunnerInfo = (Seq<char>, Board, u64, bool, UnboundedSender<ServerToRunner>);

impl RunnerEntry {
    /// What the registry records of this runner: all of it.
    pub open spec fn info(&self) -> RunnerInfo {
        (self.device_id@, self.board, self.cclk_hz, self.synthetic, self.tx)
    }
}

impl RunnerEntry {
    /// The registry entry of a runner that greeted as `hello`.
    pub fn from_hello(device_id: &str, hello: &crate::judge::HelloInfo, tx: UnboundedSender<ServerToRunner>) -> (e:
        RunnerEntry)
        ensures
            e.device_id@ == device_id@,
            e.board == hello.board,
            e.cclk_hz == hello.cclk_hz,
            e.synthetic == hello.synthetic,
            e.tx == tx,
    {
        RunnerEntry {
            device_id: device_id.to_owned(),
            board: hello.board,
            cclk_hz: hello.cclk_hz,
            synthetic: hello.synthetic,
            tx,
        }
    }
}

/// Whether the runner serves `board`.
pub fn serves_board(e: &RunnerEntry, board: Board) -> (r: bool)
    ensures
        r == (e.board == board),
{
    e.board == board
}

/// What a map of online runners holds: each device id with what is recorded
/// of the runner stored under it.
pub uninterp spec fn online_runners(m: RunnerMap) -> Map<Seq<char>, RunnerInfo>;

/// `DashMap::new`: an empty map.
#[verifier::external_body]
fn runners_new() -> (fresh: RunnerMap)
    ensures
        online_runners(fresh) =~= Map::empty(),
{
    DashMap::new()
}

/// `DashMap::insert`: stores `value` under `key`, replacing what was there.
#[verifier::external_body]
fn runners_insert(m: &mut RunnerMap, key: String, value: RunnerEntry)
    ensures
        online_runners(*final(m)) == online_runners(*old(m)).insert(key@, value.info()),
{
    m.insert(key, value);
}

/// `DashMap::remove`: drops what is stored under `key`, if anything.
#[verifier::external_body]
fn runners_remove(m: &mut RunnerMap, key: &str)
    ensures
        online_runners(*final(m)) == online_runners(*old(m)).remove(key@),
{
    m.remove(key);
}

/// `DashMap::get`, cloned out: what is stored under `key`.
#[verifier::external_body]
fn runners_get(m: &RunnerMap, key: &str) -> (r: Option<RunnerEntry>)
    ensures
        r is Some == online_runners(*m).contains_key(key@),
        r matches Some(e) ==> e.info() == online_runners(*m)[key@],
{
    m.get(key).map(|e| e.value().clone())
}

/// `DashMap::iter().find(..)`, cloned out: some stored runner serving
/// `board`, if there is one. Which one depends on the map's iteration
/// order, which is left open.
#[verifier::external_body]
fn runners_find(m: &RunnerMap, board: Board) -> (r: Option<RunnerEntry>)
    ensures
        r matches Some(e) ==> e.board == board && exists|k: Seq<char>| #[trigger]
            online_runners(*m).contains_key(k) && online_runners(*m)[k] == e.info(),
        r is None ==> forall|k: Seq<char>| #[trigger]
            online_runners(*m).contains_key(k) ==> online_runners(*m)[k].1 != board,
{
    m.iter().find(|e| serves_board(e.value(), board)).map(|e| e.value().clone())
}

/// `DashMap::iter()`, cloned out: every stored runner once, in the map's
/// iteration order, which is left open.
#[verifier::external_body]
fn runners_list(m: &RunnerMap) -> (r: Vec<RunnerEntry>)
    ensures
        r@.len() == online_runners(*m).len(),
        forall|i: int| 0 <= i < r@.len() ==> exists|k: Seq<char>| #[trigger]
            online_runners(*m).contains_key(k) && online_runners(*m)[k] == (#[trigger] r@[i]).info(),
        forall|k: Seq<char>| #[trigger] online_runners(*m).contains_key(k) ==> exists|i: int|
            0 <= i < r@.len() && online_runners(*m)[k] == (#[trigger] r@[i]).info(),
{
    m.iter().map(|e| e.value().clone()).collect()
}

/// The registry of online runners, keyed by device id.
pub struct RunnerHub {
    online: RunnerMap,
}

impl RunnerHub {
    /// What the registry holds: each online device with what is recorded of
    /// its runner.
    pub closed spec fn view(&self) -> Map<Seq<char>, RunnerInfo> {
        online_runners(self.online)
    }

    /// Each runner is stored under its own device id.
    #[verifier::type_invariant]
    closed spec fn wf(self) -> bool {
        forall|k: Seq<char>| #[trigger] self.view().contains_key(k) ==> self.view()[k].0 == k
    }

    /// An empty registry.
    pub fn new() -> (h: RunnerHub)
        ensures
            h.view() == Map::<Seq<char>, RunnerInfo>::empty(),
    {
        RunnerHub { online: runners_new() }
    }

    /// Registers a runner under its device id, replacing any earlier one.
    pub fn insert(&mut self, entry: RunnerEntry)
        ensures
            final(self).view() == old(self).view().insert(entry.device_id@, entry.info()),
    {
        proof {
            use_type_invariant(&*self);
        }
        let ghost before = self.view();
        let ghost id = entry.device_id@;
        let ghost info = entry.info();
        let key = entry.device_id.clone();
        let mut online = runners_new();
        std::mem::swap(&mut online, &mut self.online);
        assert(online_runners(online) == before);
        runners_insert(&mut online, key, entry);
        proof {
            let after = online_runners(online);
            assert(after == before.insert(id, info));
            assert forall|k: Seq<char>| #[trigger] after.contains_key(k) implies after[k].0 == k by {
                if k != id {
                    assert(before.contains_key(k));
                    assert(before[k].0 == k);
                }
            }
        }
        self.online = online;
    }

    /// Removes the runner of a device.
    pub fn remove(&mut self, device_id: &str)
        ensures
            final(self).view() == old(self).view().remove(device_id@),
    {
        proof {
            use_type_invariant(&*self);
        }
        let ghost before = self.view();
        let mut online = runners_new();
        std::mem::swap(&mut online, &mut self.online);
        assert(online_runners(online) == before);
        runners_remove(&mut online, device_id);
        proof {
            let after = online_runners(online);
            assert forall|k: Seq<char>| #[trigger] after.contains_key(k) implies after[k].0 == k by {
                assert(before.contains_key(k));
                assert(before[k].0 == k);
            }
        }
        self.online = online;
    }

    /// The runner of a device, if online.
    pub fn get(&self, device_id: &str) -> (r: Option<RunnerEntry>)
        ensures
            r is Some == self.view().contains_key(device_id@),
            r matches Some(e) ==> e.info() == self.view()[device_id@] && e.device_id@ == device_id@,
    {
        proof {
            use_type_invariant(&*self);
            assert(self.wf());
            if self.view().contains_key(device_id@) {
                assert(self.view()[device_id@].0 == device_id@);
            }
        }
        runners_get(&self.online, device_id)
    }

    /// Some online runner serving `board`, if there is any.
    pub fn find_for_board(&self, board: Board) -> (r: Option<RunnerEntry>)
        ensures
            r matches Some(e) ==> e.board == board && self.view().contains_key(e.device_id@)
                && self.view()[e.device_id@] == e.info(),
            r is None <==> forall|k: Seq<char>| #[trigger]
                self.view().contains_key(k) ==> self.view()[k].1 != board,
    {
        proof {
            use_type_invariant(&*self);
        }
        let r = runners_find(&self.online, board);
        proof {
            if r is Some {
                let e = r->0;
                let k = choose|k: Seq<char>| #[trigger] self.view().contains_key(k)
                    && self.view()[k] == e.info();
                assert(self.view()[k].0 == k);
                assert(self.view()[k].1 == board);
            }
        }
        r
    }

    /// Every online runner, once each.
    pub fn list(&self) -> (r: Vec<RunnerEntry>)
        ensures
            r@.len() == self.view().len(),
            forall|i: int| 0 <= i < r@.len() ==> self.view().contains_key((#[trigger] r@[i]).device_id@)
                && self.view()[r@[i].device_id@] == r@[i].info(),
            forall|k: Seq<char>| #[trigger] self.view().contains_key(k) ==> exists|i: int|
                0 <= i < r@.len() && r@[i].device_id@ == k,
    {
        proof {
            use_type_invariant(&*self);
        }
        let r = runners_list(&self.online);
        proof {
            assert forall|i: int| 0 <= i < r@.len() implies self.view().contains_key(
                (#[trigger] r@[i]).device_id@,
            ) && self.view()[r@[i].device_id@] == r@[i].info() by {
                let k = choose|k: Seq<char>| #[trigger] self.view().contains_key(k)
                    && self.view()[k] == r@[i].info();
                assert(self.view()[k].0 == k);
            }
            assert forall|k: Seq<char>| #[trigger] self.view().contains_key(k) implies exists|i: int|
                0 <= i < r@.len() && r@[i].device_id@ == k by {
                let i = choose|i: int| 0 <= i < r@.len() && self.view()[k] == (#[trigger] r@[i]).info();
                assert(self.view()[k].0 == k);
            }
        }
        r
    }
}

/// A registered runner is what the registry then holds under its device id,
/// sender included; registering leaves the other devices as they were, and
/// removing a device leaves no runner for it.
pub proof fn registry_keeps_what_is_registered(
    before: Map<Seq<char>, RunnerInfo>,
    e: RunnerEntry,
    other: Seq<char>,
)
    ensures
        before.insert(e.device_id@, e.info()).contains_key(e.device_id@),
        before.insert(e.device_id@, e.info())[e.device_id@].4 == e.tx,
        before.insert(e.device_id@, e.info())[e.device_id@] == e.info(),
        !before.remove(other).contains_key(other),
        other != e.device_id@ ==> before.insert(e.device_id@, e.info()).contains_key(other)
            == before.contains_key(other),
        other != e.device_id@ && before.contains_key(other) ==> before.insert(
            e.device_id@,
            e.info(),
        )[other] == before[other],
{
}

/// A registry after a run of operations: `(true, _, info)` registers
/// `info` under its device id, `(false, id, _)` removes device `id`.
pub open spec fn replay(
    m: Map<Seq<char>, RunnerInfo>,
    ops: Seq<(bool, Seq<char>, RunnerInfo)>,
) -> Map<Seq<char>, RunnerInfo>
    decreases ops.len(),
{
    if ops.len() == 0 {
        m
    } else {
        let o = ops.last();
        let before = replay(m, ops.drop_last());
        if o.0 {
            before.insert(o.2.0, o.2)
        } else {
            before.remove(o.1)
        }
    }
}

/// A registered runner stays registered as it was, sender included, through
/// any run of registrations and removals of other devices.
pub proof fn registry_keeps_entry_through_other_operations(
    before: Map<Seq<char>, RunnerInfo>,
    e: RunnerEntry,
    ops: Seq<(bool, Seq<char>, RunnerInfo)>,
)
    requires
        forall|i: int|
            0 <= i < ops.len() ==> (if (#[trigger] ops[i]).0 {
                ops[i].2.0 != e.device_id@
            } else {
                ops[i].1 != e.device_id@
            }),
    ensures
        replay(before.insert(e.device_id@, e.info()), ops).contains_key(e.device_id@),
        replay(before.insert(e.device_id@, e.info()), ops)[e.device_id@] == e.info(),
    decreases ops.len(),
{
    if ops.len() > 0 {
        let rest = ops.drop_last();
        assert forall|i: int| 0 <= i < rest.len() implies (if (#[trigger] rest[i]).0 {
            rest[i].2.0 != e.device_id@
        } else {
            rest[i].1 != e.device_id@
        }) by {
            assert(rest[i] == ops[i]);
        }
        registry_keeps_entry_through_other_operations(before, e, rest);
        assert(ops.last() == ops[ops.len() - 1]);
    }
}

} // verus!
