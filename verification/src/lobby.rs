//! The lobby: the surface that creates tables, tracks them in its registry
//! and removes them when either side closes them.
//!
//! The lobby decides; whoever drives it performs what it decides. A step
//! takes a message and answers with an [`Action`]: a surface to open, a
//! handle to close, or nothing. The outcome of opening comes back through
//! [`Lobby::window_opened`].

use vstd::prelude::*;
use vstd::string::*;
use crate::TableId;
use crate::command_types::{
    CloseNotification,
    CloseNotificationView,
    PopUpFeatures,
    PopUpFeaturesView,
    Size,
};
use crate::route::{Route, table_path};
use crate::table_info::{
    TableInfo,
    Tables,
    at_most_once,
    distinct,
    ids_of,
    lemma_position,
    lemma_remove_twice,
    lemma_without_distinct,
    position,
    without,
};

verus! {

/// What the lobby is told to do.
#[derive(Clone, Copy, Debug, PartialEq, Eq, Structural)]
pub enum Msg {
    CreateWindow,
    CloseWindow(TableId),
}

/// The number that a close notification carries for table `id`.
pub open spec fn closed_payload(id: TableId) -> u64 {
    id as u64
}

/// The table that a close notification with this number speaks of: the
/// number's low eight bits.
pub open spec fn closed_table(payload: u64) -> TableId {
    (payload % 256) as u8
}

/// A table's identifier survives the trip through a close notification.
pub proof fn lemma_closed_payload_round_trip(id: TableId)
    ensures
        closed_table(closed_payload(id)) == id,
{
}

impl Msg {
    /// The message that a close notification with this number stands for.
    pub fn from_closed_payload(payload: u64) -> (msg: Msg)
        ensures
            msg == Msg::CloseWindow(closed_table(payload)),
    {
        Msg::CloseWindow((payload % 256) as u8)
    }
}

/// The identifier that follows `id`: the next number, and zero after the
/// greatest.
pub open spec fn successor(id: TableId) -> TableId {
    if id == 255 {
        0
    } else {
        (id + 1) as u8
    }
}

/// Issues identifiers one after the other, starting again at zero after the
/// greatest.
#[derive(Debug)]
pub struct IdAllocator {
    next: TableId,
}

impl IdAllocator {
    /// The identifier that the next call of `next` issues.
    pub closed spec fn upcoming(&self) -> TableId {
        self.next
    }

    /// An allocator that starts at zero.
    pub fn new() -> (ids: Self)
        ensures
            ids.upcoming() == 0,
    {
        IdAllocator { next: 0 }
    }

    /// An allocator that starts at `first`.
    pub fn starting_at(first: TableId) -> (ids: Self)
        ensures
            ids.upcoming() == first,
    {
        IdAllocator { next: first }
    }

    /// Issues an identifier.
    pub fn next(&mut self) -> (id: TableId)
        ensures
            id == old(self).upcoming(),
            final(self).upcoming() == successor(id),
    {
        let id = self.next;
        self.next = if id == 255 {
            0
        } else {
            id + 1
        };
        id
    }
}

/// How surfaces are opened.
#[derive(Clone, Copy, Debug, PartialEq, Eq, Structural)]
pub enum Backend {
    /// A window host outside the process, reached by commands and events.
    Native,
    /// Windows of the browser, in the same process.
    Browser,
}

/// The descriptor of the surface of table `id`, for a lobby served from
/// `protocol//host`: the table's path is its target and ends its address, it
/// is 300 wide and 200 high, placed by the host. On the native backend the
/// surface named `main` is told of its destruction, by the table's number.
pub open spec fn features_of(
    id: TableId,
    protocol: Seq<char>,
    host: Seq<char>,
    backend: Backend,
) -> PopUpFeaturesView {
    PopUpFeaturesView {
        url: protocol + "//"@ + host + table_path(id),
        target: table_path(id),
        size: Some(Size { height: 200, width: 300 }),
        position: None,
        close_notification: match backend {
            Backend::Native => Some(
                CloseNotificationView { receiver_label: "main"@, id: closed_payload(id) },
            ),
            Backend::Browser => None,
        },
    }
}

/// Builds the descriptor of the surface of table `id`.
pub fn features(id: TableId, protocol: &str, host: &str, backend: Backend) -> (descriptor:
    PopUpFeatures)
    ensures
        descriptor@ == features_of(id, protocol@, host@, backend),
{
    let path = (Route::Table { id }).to_path();
    let mut url = String::from_str(protocol);
    url.append("//");
    url.append(host);
    url.append(path.as_str());
    let close_notification = match backend {
        Backend::Native => Some(
            CloseNotification { receiver_label: String::from_str("main"), id: id as u64 },
        ),
        Backend::Browser => None,
    };
    PopUpFeatures {
        url,
        target: path,
        size: Some(Size { height: 200, width: 300 }),
        position: None,
        close_notification,
    }
}

/// What the driver of a lobby does after a step.
#[derive(Debug)]
pub enum Action<W> {
    /// Open the surface that `features` describes, and report the outcome
    /// for `id` with [`Lobby::window_opened`].
    Open { id: TableId, features: PopUpFeatures },
    /// Close the surface of `table`, and ignore a failure: the record has
    /// left the registry, and the surface may be gone already.
    Close { table: TableInfo<W> },
    /// Nothing: no record had the identifier.
    Nothing,
}

impl<W> Action<W> {
    /// Whether the step calls for the lobby to be drawn again: always after a
    /// request to create, after a request to close only where a record left.
    pub open spec fn redraws(&self) -> bool {
        !(self is Nothing)
    }

    /// Whether the lobby is to be drawn again.
    pub fn should_render(&self) -> (render: bool)
        ensures
            render == self.redraws(),
    {
        match self {
            Action::Nothing => false,
            _ => true,
        }
    }
}

/// The lobby's state: the registry of its tables and its identifiers.
#[derive(Debug)]
pub struct Lobby<W> {
    tables: Tables<W>,
    ids: IdAllocator,
    backend: Backend,
}

impl<W> Lobby<W> {
    /// The records of the live tables, in registry order.
    pub closed spec fn registry(&self) -> Seq<TableInfo<W>> {
        self.tables@
    }

    /// The identifier that the next table gets.
    pub closed spec fn upcoming(&self) -> TableId {
        self.ids.upcoming()
    }

    /// How this lobby's surfaces are opened.
    pub closed spec fn backend(&self) -> Backend {
        self.backend
    }

    /// The identifiers of the live tables, in registry order.
    pub open spec fn live(&self) -> Seq<TableId> {
        ids_of(self.registry())
    }

    /// What the close protocol knows of this lobby.
    pub open spec fn state(&self) -> LobbyState {
        LobbyState { next: self.upcoming(), live: self.live() }
    }

    /// A lobby without tables, whose first table gets the identifier zero.
    pub fn new(backend: Backend) -> (lobby: Self)
        ensures
            lobby.registry() == Seq::<TableInfo<W>>::empty(),
            lobby.upcoming() == 0,
            lobby.backend() == backend,
            lobby.state() == fresh(),
    {
        let lobby = Lobby { tables: Tables::new(), ids: IdAllocator::new(), backend };
        assert(lobby.live() =~= Seq::<TableId>::empty());
        lobby
    }

    /// The registry.
    pub fn tables(&self) -> (tables: &Tables<W>)
        ensures
            tables@ == self.registry(),
    {
        &self.tables
    }

    /// Begins the creation of a table: issues its identifier and builds the
    /// descriptor of its surface. The registry is left as it is: the table
    /// enters it only once its surface has been opened.
    pub fn create_window(&mut self, protocol: &str, host: &str) -> (request: (
        TableId,
        PopUpFeatures,
    ))
        ensures
            request.0 == old(self).upcoming(),
            request.1@ == features_of(request.0, protocol@, host@, old(self).backend()),
            final(self).upcoming() == successor(old(self).upcoming()),
            final(self).registry() == old(self).registry(),
            final(self).backend() == old(self).backend(),
    {
        let id = self.ids.next();
        (id, features(id, protocol, host, self.backend))
    }

    /// Ends the creation of table `id`. Where its surface was opened, the
    /// table's record enters the registry, behind all others. Where it was
    /// not, nothing changes; the identifier stays spent.
    pub fn window_opened<E>(&mut self, id: TableId, outcome: Result<W, E>)
        ensures
            final(self).upcoming() == old(self).upcoming(),
            final(self).backend() == old(self).backend(),
            match outcome {
                Ok(window) => final(self).registry() == old(self).registry().push(
                    TableInfo { id, window },
                ),
                Err(_) => final(self).registry() == old(self).registry(),
            },
            final(self).live() == if outcome is Ok {
                old(self).live().push(id)
            } else {
                old(self).live()
            },
    {
        if let Ok(window) = outcome {
            self.tables.push(TableInfo::new(window, id));
        }
    }

    /// Removes table `id` from the registry and hands its record back, so
    /// that its surface is closed. Where the table is not in the registry,
    /// because the other side of the protocol has removed it already, nothing
    /// changes and nothing is handed back.
    pub fn close_window(&mut self, id: TableId) -> (removed: Option<TableInfo<W>>)
        ensures
            final(self).upcoming() == old(self).upcoming(),
            final(self).backend() == old(self).backend(),
            removed is Some <==> old(self).live().contains(id),
            match position(old(self).live(), id) {
                Some(i) => removed == Some(old(self).registry()[i]) && final(self).registry()
                    == old(self).registry().remove(i),
                None => removed is None && final(self).registry() == old(self).registry(),
            },
            final(self).live() == without(old(self).live(), id),
            final(self).state() == step(old(self).state(), Op::Remove { id }),
    {
        self.tables.remove_by_id(id)
    }

    /// One step of the lobby. A request to create answers with the surface to
    /// open, as `create_window` does; a request to close answers with the
    /// record whose surface is to be closed, as `close_window` does, or with
    /// nothing where no record has the identifier.
    pub fn update(&mut self, msg: Msg, protocol: &str, host: &str) -> (action: Action<W>)
        ensures
            final(self).backend() == old(self).backend(),
            match msg {
                Msg::CreateWindow => {
                    &&& action matches Action::Open { id, features }
                    &&& id == old(self).upcoming()
                    &&& features@ == features_of(id, protocol@, host@, old(self).backend())
                    &&& final(self).upcoming() == successor(old(self).upcoming())
                    &&& final(self).registry() == old(self).registry()
                },
                Msg::CloseWindow(id) => {
                    &&& final(self).upcoming() == old(self).upcoming()
                    &&& final(self).state() == step(old(self).state(), Op::Remove { id })
                    &&& match position(old(self).live(), id) {
                        Some(i) => {
                            &&& action == Action::Close { table: old(self).registry()[i] }
                            &&& final(self).registry() == old(self).registry().remove(i)
                        },
                        None => {
                            &&& action is Nothing
                            &&& final(self).registry() == old(self).registry()
                        },
                    }
                },
            },
    {
        match msg {
            Msg::CreateWindow => {
                let (id, features) = self.create_window(protocol, host);
                Action::Open { id, features }
            },
            Msg::CloseWindow(id) => {
                match self.close_window(id) {
                    Some(table) => Action::Close { table },
                    None => Action::Nothing,
                }
            },
        }
    }
}

/// What the close protocol knows of a lobby: the identifier that the next
/// table gets and the identifiers of the live tables, in registry order.
pub struct LobbyState {
    pub next: TableId,
    pub live: Seq<TableId>,
}

/// What can happen to a lobby.
pub enum Op {
    /// A table is created; its surface was opened, or could not be.
    Create { opened: bool },
    /// Table `id` is removed, by whichever side.
    Remove { id: TableId },
}

/// The state of a new lobby.
pub open spec fn fresh() -> LobbyState {
    LobbyState { next: 0, live: Seq::empty() }
}

/// The state after `op`.
pub open spec fn step(s: LobbyState, op: Op) -> LobbyState {
    match op {
        Op::Create { opened } => LobbyState {
            next: successor(s.next),
            live: if opened {
                s.live.push(s.next)
            } else {
                s.live
            },
        },
        Op::Remove { id } => LobbyState { next: s.next, live: without(s.live, id) },
    }
}

/// The state after `ops`, one after the other.
pub open spec fn run(s: LobbyState, ops: Seq<Op>) -> LobbyState
    decreases ops.len(),
{
    if ops.len() == 0 {
        s
    } else {
        step(run(s, ops.drop_last()), ops.last())
    }
}

/// Creating a table in its two halves is one operation: where `begun` is the
/// state after `create_window` has issued `id` in the state `before`, and
/// `ended` the state after `window_opened` has taken the outcome for `id`.
pub proof fn lemma_creation(
    before: LobbyState,
    id: TableId,
    begun: LobbyState,
    opened: bool,
    ended: LobbyState,
)
    requires
        id == before.next,
        begun == (LobbyState { next: successor(before.next), live: before.live }),
        ended == (LobbyState {
            next: begun.next,
            live: if opened {
                begun.live.push(id)
            } else {
                begun.live
            },
        }),
    ensures
        ended == step(before, Op::Create { opened }),
{
}

/// Closing a table twice, from whichever sides: where the table is live the
/// first removal takes its record out; the second finds no record, so it
/// changes nothing and asks for nothing to be closed.
pub proof fn lemma_close_twice(s: LobbyState, id: TableId)
    requires
        at_most_once(s.live, id),
    ensures
        s.live.contains(id) ==> position(s.live, id) is Some,
        position(step(s, Op::Remove { id }).live, id) is None,
        step(step(s, Op::Remove { id }), Op::Remove { id }) == step(s, Op::Remove { id }),
{
    lemma_remove_twice(s.live, id);
}

/// Whether `op` gives a new table an identifier that a live table has. The
/// identifiers start again at zero after the greatest and the lobby does not
/// look for this, so it happens once as many tables have been created as
/// there are identifiers, if the table that got the first is still live.
pub open spec fn collides(s: LobbyState, op: Op) -> bool {
    op == (Op::Create { opened: true }) && s.live.contains(s.next)
}

/// Whether no operation of `ops`, run from `s`, collides.
pub open spec fn collision_free(s: LobbyState, ops: Seq<Op>) -> bool {
    forall|k: int| 0 <= k < ops.len() ==> !collides(run(s, ops.take(k)), #[trigger] ops[k])
}

/// How many tables `ops` creates, opened or not.
pub open spec fn creations(ops: Seq<Op>) -> nat
    decreases ops.len(),
{
    if ops.len() == 0 {
        0
    } else {
        creations(ops.drop_last()) + if ops.last() is Create {
            1nat
        } else {
            0nat
        }
    }
}

/// Whether each identifier of `ids` is less than those behind it.
pub open spec fn increasing(ids: Seq<TableId>) -> bool {
    forall|i: int, j: int| 0 <= i < j < ids.len() ==> ids[i] < ids[j]
}

/// An operation that does not collide keeps the live identifiers distinct.
pub proof fn lemma_step_distinct(s: LobbyState, op: Op)
    requires
        distinct(s.live),
        !collides(s, op),
    ensures
        distinct(step(s, op).live),
{
    match op {
        Op::Create { opened } => {},
        Op::Remove { id } => {
            lemma_without_distinct(s.live, id);
        },
    }
}

/// An operation that collides leaves two live tables with one identifier.
pub proof fn lemma_collision_repeats(s: LobbyState, op: Op)
    requires
        collides(s, op),
    ensures
        !distinct(step(s, op).live),
{
    let k = choose|k: int| 0 <= k < s.live.len() && s.live[k] == s.next;
    let after = step(s, op).live;
    assert(after[k] == after[s.live.len() as int]);
}

/// Whatever is created and removed, in whatever order: as long as no
/// creation collides, no two live tables share an identifier.
pub proof fn lemma_run_distinct(s: LobbyState, ops: Seq<Op>)
    requires
        distinct(s.live),
        collision_free(s, ops),
    ensures
        distinct(run(s, ops).live),
    decreases ops.len(),
{
    if ops.len() > 0 {
        let init = ops.drop_last();
        assert(init =~= ops.take(ops.len() - 1));
        assert forall|k: int| 0 <= k < init.len() implies !collides(
            run(s, init.take(k)),
            #[trigger] init[k],
        ) by {
            assert(init.take(k) =~= ops.take(k));
            assert(init[k] == ops[k]);
        }
        lemma_run_distinct(s, init);
        assert(!collides(run(s, ops.take(ops.len() - 1)), ops[ops.len() - 1]));
        lemma_step_distinct(run(s, init), ops.last());
    }
}

/// In a new lobby, until more tables have been created than there are
/// identifiers: the live tables stand in the registry in the order of their
/// creation, which is the order of their identifiers, so no two of them
/// share one; and the next table gets the number of tables created so far.
pub proof fn lemma_fresh_run(ops: Seq<Op>)
    requires
        creations(ops) <= 256,
    ensures
        increasing(run(fresh(), ops).live),
        distinct(run(fresh(), ops).live),
        forall|i: int|
            0 <= i < run(fresh(), ops).live.len() ==> (#[trigger] run(fresh(), ops).live[i])
                < creations(ops),
        run(fresh(), ops).next as nat == creations(ops) % 256,
    decreases ops.len(),
{
    if ops.len() > 0 {
        let init = ops.drop_last();
        lemma_fresh_run(init);
        let before = run(fresh(), init);
        let after = run(fresh(), ops);
        match ops.last() {
            Op::Create { opened } => {
                assert(before.next as nat == creations(init));
            },
            Op::Remove { id } => {
                lemma_position(before.live, id);
                if let Some(p) = position(before.live, id) {
                    assert forall|i: int| 0 <= i < after.live.len() implies after.live[i]
                        == before.live[if i < p {
                        i
                    } else {
                        i + 1
                    }] by {}
                }
            },
        }
    }
}

} // verus!
