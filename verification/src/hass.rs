//! The supervisor of the hub connection and its cache of entity states.
//!
//! The supervisor is written without I/O: it is told what happened on the
//! connection and answers with what to do next. The program around this
//! library owns the session, performs each action and reports its outcome.

use std::time::Duration;
use vstd::hash_map::StringHashMap;
use vstd::prelude::*;

verus! {

/// `serde_json::Value`, the JSON value that carries the attributes of an
/// entity and the payload of a service call. The library never looks into
/// one: it stores it and hands it on.
#[verifier::external_type_specification]
#[verifier::external_body]
pub struct ExJsonValue(serde_json::Value);

/// `Clone::clone` of `serde_json::Value`, a derived impl: the copy is the
/// same JSON value as the one it was made from.
pub assume_specification[ <serde_json::Value as Clone>::clone ](
    value: &serde_json::Value,
) -> (res: serde_json::Value)
    ensures
        res == *value,
;

/// Who or what caused a state change.
#[derive(Debug, PartialEq, Eq)]
pub struct Context {
    pub id: String,
    pub parent_id: Option<String>,
    pub user_id: Option<String>,
}

/// Mathematical model of a [`Context`].
pub struct ContextView {
    pub id: Seq<char>,
    pub parent_id: Option<Seq<char>>,
    pub user_id: Option<Seq<char>>,
}

/// The model of an optional string.
pub open spec fn text_view(text: Option<String>) -> Option<Seq<char>> {
    match text {
        Some(text) => Some(text@),
        None => None,
    }
}

fn clone_text(text: &Option<String>) -> (res: Option<String>)
    ensures
        text_view(res) == text_view(*text),
{
    match text {
        Some(text) => Some(text.clone()),
        None => None,
    }
}

impl View for Context {
    type V = ContextView;

    open spec fn view(&self) -> ContextView {
        ContextView {
            id: self.id@,
            parent_id: text_view(self.parent_id),
            user_id: text_view(self.user_id),
        }
    }
}

impl Clone for Context {
    fn clone(&self) -> (res: Self)
        ensures
            res@ == self@,
    {
        Context {
            id: self.id.clone(),
            parent_id: clone_text(&self.parent_id),
            user_id: clone_text(&self.user_id),
        }
    }
}

/// The last state of one entity that the hub reported.
#[derive(Debug, PartialEq, Eq)]
pub struct EntityState {
    /// The stable identifier of the entity, e.g. `light.living_room`.
    pub entity_id: String,
    pub last_changed: String,
    /// The state value, e.g. `on`.
    pub state: String,
    /// The attributes of the entity, kept as the hub sent them.
    pub attributes: serde_json::Value,
    pub last_updated: String,
    pub context: Option<Context>,
}

/// Mathematical model of an [`EntityState`].
pub struct EntityStateView {
    pub entity_id: Seq<char>,
    pub last_changed: Seq<char>,
    pub state: Seq<char>,
    pub attributes: serde_json::Value,
    pub last_updated: Seq<char>,
    pub context: Option<ContextView>,
}

/// The model of an optional context.
pub open spec fn context_view(context: Option<Context>) -> Option<ContextView> {
    match context {
        Some(context) => Some(context@),
        None => None,
    }
}

impl View for EntityState {
    type V = EntityStateView;

    open spec fn view(&self) -> EntityStateView {
        EntityStateView {
            entity_id: self.entity_id@,
            last_changed: self.last_changed@,
            state: self.state@,
            attributes: self.attributes,
            last_updated: self.last_updated@,
            context: context_view(self.context),
        }
    }
}

impl Clone for EntityState {
    fn clone(&self) -> (res: Self)
        ensures
            res@ == self@,
    {
        EntityState {
            entity_id: self.entity_id.clone(),
            last_changed: self.last_changed.clone(),
            state: self.state.clone(),
            attributes: self.attributes.clone(),
            last_updated: self.last_updated.clone(),
            context: match &self.context {
                Some(context) => Some(context.clone()),
                None => None,
            },
        }
    }
}

/// The model of a list of entity states.
pub open spec fn batch_view(batch: Seq<EntityState>) -> Seq<EntityStateView> {
    Seq::new(batch.len(), |i: int| batch[i]@)
}

/// The model of the stored entries.
pub open spec fn cache_view(entries: Map<Seq<char>, EntityState>) -> Map<
    Seq<char>,
    EntityStateView,
> {
    entries.map_values(|e: EntityState| e@)
}

/// The place in `batch` of the last record of the entity `id`, or -1 where
/// the batch holds none.
pub open spec fn last_record(batch: Seq<EntityStateView>, id: Seq<char>) -> int
    decreases batch.len(),
{
    if batch.len() == 0 {
        -1
    } else if batch.last().entity_id == id {
        batch.len() - 1
    } else {
        last_record(batch.drop_last(), id)
    }
}

/// The cache after a refresh that brought `batch`: an entity of the batch
/// holds its last record in the batch, whatever the cache held for it;
/// every other entry of the cache stays as it was, and none is removed.
pub open spec fn refreshed(
    cache: Map<Seq<char>, EntityStateView>,
    batch: Seq<EntityStateView>,
) -> Map<Seq<char>, EntityStateView> {
    Map::new(
        |id: Seq<char>| cache.contains_key(id) || last_record(batch, id) >= 0,
        |id: Seq<char>|
            if last_record(batch, id) >= 0 {
                batch[last_record(batch, id)]
            } else {
                cache[id]
            },
    )
}

/// Where `last_record` points: at a record of the entity that no record of
/// the same entity follows; and it is -1 only where the batch holds no
/// record of the entity.
pub proof fn lemma_last_record(batch: Seq<EntityStateView>, id: Seq<char>)
    ensures
        -1 <= last_record(batch, id) < batch.len(),
        last_record(batch, id) >= 0 ==> batch[last_record(batch, id)].entity_id == id,
        forall|j: int|
            last_record(batch, id) < j < batch.len() ==> (#[trigger] batch[j]).entity_id != id,
    decreases batch.len(),
{
    if batch.len() > 0 && batch.last().entity_id != id {
        let front = batch.drop_last();
        lemma_last_record(front, id);
        assert forall|j: int| last_record(batch, id) < j < batch.len() implies (
        #[trigger] batch[j]).entity_id != id by {
            if j < front.len() {
                assert(front[j] == batch[j]);
            }
        }
    }
}

/// A refresh with one more record at the end of the batch is the refresh
/// with the batch, followed by writing that record under its entity id.
pub proof fn lemma_refreshed_push(
    cache: Map<Seq<char>, EntityStateView>,
    batch: Seq<EntityStateView>,
    record: EntityStateView,
)
    ensures
        refreshed(cache, batch.push(record)) == refreshed(cache, batch).insert(
            record.entity_id,
            record,
        ),
{
    let longer = batch.push(record);
    assert(longer.drop_last() =~= batch);
    assert(longer.last() == record);
    assert forall|id: Seq<char>|
        last_record(longer, id) == (if record.entity_id == id {
            batch.len() as int
        } else {
            last_record(batch, id)
        }) by {}
    assert forall|id: Seq<char>| last_record(batch, id) >= 0 implies longer[last_record(batch, id)]
        == batch[last_record(batch, id)] by {
        lemma_last_record(batch, id);
    }
    assert(refreshed(cache, longer) =~= refreshed(cache, batch).insert(record.entity_id, record));
}

/// What the keep-alive loop waits for while it runs.
#[derive(Debug, Clone, Copy, PartialEq, Eq, Structural)]
pub enum Pending {
    /// The race between the shutdown signal and one refresh attempt.
    Refresh,
    /// The attempt to replace the session after a failed refresh.
    Reconnect,
    /// The end of the pause between two cycles.
    Sleep,
}

/// The state of the keep-alive loop.
#[derive(Debug, Clone, Copy, PartialEq, Eq, Structural)]
pub enum LoopState {
    /// The loop runs and waits for what `Pending` names.
    Running(Pending),
    /// The shutdown signal was seen: the loop has ended for good.
    ShuttingDown,
}

/// What the program around the supervisor does next.
#[derive(Debug, Clone, Copy, PartialEq, Eq)]
pub enum Action {
    /// Wait for the shutdown signal or for the outcome of fetching all
    /// entity states, whichever comes first.
    Refresh,
    /// Open and authenticate a new session and, if that succeeds, put it in
    /// the place of the current one.
    Reconnect,
    /// Pause for the given time.
    Sleep(Duration),
    /// Leave the loop.
    Stop,
}

/// What happened on the connection.
#[derive(Debug, PartialEq, Eq)]
pub enum Event {
    /// The shutdown signal arrived before the refresh attempt completed.
    ShutdownRequested,
    /// The refresh attempt completed, with all entity states or with the
    /// description of a failure.
    Refreshed(Result<Vec<EntityState>, String>),
    /// The reconnection attempt completed: a new session is installed, or
    /// the old one is still in place and the failure is described.
    Reconnected(Result<(), String>),
    /// The pause is over.
    Woke,
}

/// Mathematical model of an [`Event`].
pub enum EventView {
    ShutdownRequested,
    Refreshed(Result<Seq<EntityStateView>, Seq<char>>),
    Reconnected(Result<(), Seq<char>>),
    Woke,
}

impl View for Event {
    type V = EventView;

    open spec fn view(&self) -> EventView {
        match self {
            Event::ShutdownRequested => EventView::ShutdownRequested,
            Event::Refreshed(Ok(states)) => EventView::Refreshed(Ok(batch_view(states@))),
            Event::Refreshed(Err(message)) => EventView::Refreshed(Err(message@)),
            Event::Reconnected(Ok(())) => EventView::Reconnected(Ok(())),
            Event::Reconnected(Err(message)) => EventView::Reconnected(Err(message@)),
            Event::Woke => EventView::Woke,
        }
    }
}

/// Something worth telling the operator.
#[derive(Debug, PartialEq, Eq)]
pub enum Notice {
    /// The loop ends on the shutdown signal.
    ClosingConnection,
    /// Fetching the entity states failed.
    FetchFailed(String),
    /// A new session took the place of the old one.
    ClientReplaced,
    /// Replacing the session failed; the old one stays.
    ReplaceFailed(String),
}

/// Mathematical model of a [`Notice`].
pub enum NoticeView {
    ClosingConnection,
    FetchFailed(Seq<char>),
    ClientReplaced,
    ReplaceFailed(Seq<char>),
}

impl View for Notice {
    type V = NoticeView;

    open spec fn view(&self) -> NoticeView {
        match self {
            Notice::ClosingConnection => NoticeView::ClosingConnection,
            Notice::FetchFailed(message) => NoticeView::FetchFailed(message@),
            Notice::ClientReplaced => NoticeView::ClientReplaced,
            Notice::ReplaceFailed(message) => NoticeView::ReplaceFailed(message@),
        }
    }
}

/// The model of an optional notice.
pub open spec fn notice_view(notice: Option<Notice>) -> Option<NoticeView> {
    match notice {
        Some(notice) => Some(notice@),
        None => None,
    }
}

/// The answer of the supervisor to an event.
#[derive(Debug, PartialEq, Eq)]
pub struct Step {
    /// What to do next.
    pub action: Action,
    /// What to tell the operator, if anything.
    pub notice: Option<Notice>,
}

/// A request to run a service of the hub.
#[derive(Debug, PartialEq, Eq)]
pub struct ServiceCall {
    /// The domain of the service, e.g. `light`.
    pub domain: String,
    /// The service, e.g. `turn_on`.
    pub service: String,
    /// The payload of the call, if any.
    pub data: Option<serde_json::Value>,
}

/// Mathematical model of a [`PersistentHassConnection`].
pub struct ConnectionView {
    pub url: Seq<char>,
    pub token: Seq<char>,
    pub states: Map<Seq<char>, EntityStateView>,
    pub update_interval: Duration,
    pub loop_state: LoopState,
}

impl ConnectionView {
    /// What the loop has to do in this state.
    pub open spec fn pending_action(self) -> Action {
        match self.loop_state {
            LoopState::Running(Pending::Refresh) => Action::Refresh,
            LoopState::Running(Pending::Reconnect) => Action::Reconnect,
            LoopState::Running(Pending::Sleep) => Action::Sleep(self.update_interval),
            LoopState::ShuttingDown => Action::Stop,
        }
    }

    /// Whether `event` is an outcome of what the loop waits for.
    pub open spec fn accepts(self, event: EventView) -> bool {
        match self.loop_state {
            LoopState::Running(Pending::Refresh) => event is ShutdownRequested
                || event is Refreshed,
            LoopState::Running(Pending::Reconnect) => event is Reconnected,
            LoopState::Running(Pending::Sleep) => event is Woke,
            LoopState::ShuttingDown => false,
        }
    }

    /// The state after `event`. An event that the loop does not wait for
    /// changes nothing.
    pub open spec fn next(self, event: EventView) -> ConnectionView {
        if !self.accepts(event) {
            self
        } else {
            match event {
                EventView::ShutdownRequested => ConnectionView {
                    loop_state: LoopState::ShuttingDown,
                    ..self
                },
                EventView::Refreshed(Ok(batch)) => ConnectionView {
                    states: refreshed(self.states, batch),
                    loop_state: LoopState::Running(Pending::Sleep),
                    ..self
                },
                EventView::Refreshed(Err(_)) => ConnectionView {
                    loop_state: LoopState::Running(Pending::Reconnect),
                    ..self
                },
                EventView::Reconnected(_) => ConnectionView {
                    loop_state: LoopState::Running(Pending::Sleep),
                    ..self
                },
                EventView::Woke => ConnectionView {
                    loop_state: LoopState::Running(Pending::Refresh),
                    ..self
                },
            }
        }
    }

    /// What `event` gives to tell the operator.
    pub open spec fn notice(self, event: EventView) -> Option<NoticeView> {
        if !self.accepts(event) {
            None
        } else {
            match event {
                EventView::ShutdownRequested => Some(NoticeView::ClosingConnection),
                EventView::Refreshed(Err(message)) => Some(NoticeView::FetchFailed(message)),
                EventView::Reconnected(Ok(())) => Some(NoticeView::ClientReplaced),
                EventView::Reconnected(Err(message)) => Some(NoticeView::ReplaceFailed(message)),
                _ => None,
            }
        }
    }

    /// The state after a run of events.
    pub open spec fn run(self, events: Seq<EventView>) -> ConnectionView
        decreases events.len(),
    {
        if events.len() == 0 {
            self
        } else {
            self.run(events.drop_last()).next(events.last())
        }
    }
}

/// Whether `batch` holds a record of the entity `id`.
pub open spec fn mentions(batch: Seq<EntityStateView>, id: Seq<char>) -> bool {
    exists|i: int| 0 <= i < batch.len() && (#[trigger] batch[i]).entity_id == id
}

/// Whether `event` reports a refresh that brought a record of the entity
/// `id`.
pub open spec fn brings(event: EventView, id: Seq<char>) -> bool {
    event matches EventView::Refreshed(Ok(batch)) && mentions(batch, id)
}

/// Refreshing twice with the same batch leaves the cache as refreshing
/// once does.
pub proof fn lemma_refresh_idempotent(
    cache: Map<Seq<char>, EntityStateView>,
    batch: Seq<EntityStateView>,
)
    ensures
        refreshed(refreshed(cache, batch), batch) == refreshed(cache, batch),
{
    assert(refreshed(refreshed(cache, batch), batch) =~= refreshed(cache, batch));
}

/// A refresh removes no entry, and leaves every entry of an entity that the
/// batch does not mention as it was.
pub proof fn lemma_refresh_keeps_entries(
    cache: Map<Seq<char>, EntityStateView>,
    batch: Seq<EntityStateView>,
    id: Seq<char>,
)
    requires
        cache.contains_key(id),
    ensures
        refreshed(cache, batch).contains_key(id),
        !mentions(batch, id) ==> refreshed(cache, batch)[id] == cache[id],
{
    lemma_last_record(batch, id);
}

/// After a refresh, the entity of each record of the batch is known, and
/// holds the record unless a later record of the batch is of the same
/// entity.
pub proof fn lemma_refresh_stores_records(
    cache: Map<Seq<char>, EntityStateView>,
    batch: Seq<EntityStateView>,
    i: int,
)
    requires
        0 <= i < batch.len(),
    ensures
        refreshed(cache, batch).contains_key(batch[i].entity_id),
        (forall|j: int| i < j < batch.len() ==> (#[trigger] batch[j]).entity_id != batch[i].entity_id)
            ==> refreshed(cache, batch)[batch[i].entity_id] == batch[i],
{
    let id = batch[i].entity_id;
    lemma_last_record(batch, id);
    let r = last_record(batch, id);
    if r < i {
        assert(batch[i].entity_id != id);
    }
}

/// No event but a successful refresh changes the cache: a failed refresh,
/// a reconnection, whatever its outcome, the pause and the shutdown signal
/// leave every entry as it was.
pub proof fn lemma_failure_keeps_cache(state: ConnectionView, event: EventView)
    requires
        !(event matches EventView::Refreshed(Ok(_))),
    ensures
        state.next(event).states == state.states,
{
}

/// No event removes an entry from the cache.
pub proof fn lemma_no_entry_removed(state: ConnectionView, event: EventView, id: Seq<char>)
    requires
        state.states.contains_key(id),
    ensures
        state.next(event).states.contains_key(id),
{
}

/// An entity that no successful refresh has brought is unknown: if the
/// cache holds nothing for `id` and no event of a run brings a record of
/// it, the cache holds nothing for it after the run.
pub proof fn lemma_unknown_entity_stays_unknown(
    start: ConnectionView,
    events: Seq<EventView>,
    id: Seq<char>,
)
    requires
        !start.states.contains_key(id),
        forall|i: int| 0 <= i < events.len() ==> !brings(#[trigger] events[i], id),
    ensures
        !start.run(events).states.contains_key(id),
    decreases events.len(),
{
    if events.len() > 0 {
        let front = events.drop_last();
        assert forall|i: int| 0 <= i < front.len() implies !brings(#[trigger] front[i], id) by {
            assert(front[i] == events[i]);
        }
        lemma_unknown_entity_stays_unknown(start, front, id);
        let last = events.last();
        assert(!brings(events[events.len() - 1], id));
        if let EventView::Refreshed(Ok(batch)) = last {
            lemma_last_record(batch, id);
        }
    }
}

/// The loop never leaves the shutdown state, and only the shutdown signal,
/// seen while the loop waits for a refresh, leads into it.
pub proof fn lemma_shutdown_is_final(state: ConnectionView, event: EventView)
    ensures
        state.loop_state is ShuttingDown ==> state.next(event) == state,
        state.next(event).loop_state is ShuttingDown ==> state.loop_state is ShuttingDown || (
        event is ShutdownRequested && state.loop_state == LoopState::Running(Pending::Refresh)),
{
}

/// From one refresh attempt to the next: after a successful refresh the
/// loop pauses once for the configured interval and then refreshes again;
/// after a failed one it first attempts one reconnection and then does the
/// same, whether or not the reconnection succeeded. The states that the
/// next successful refresh brings are in the cache as soon as it completes.
pub proof fn lemma_refresh_cycle(
    state: ConnectionView,
    first: Result<Seq<EntityStateView>, Seq<char>>,
    reconnection: Result<(), Seq<char>>,
    batch: Seq<EntityStateView>,
)
    requires
        state.loop_state == LoopState::Running(Pending::Refresh),
    ensures
        ({
            let attempted = state.next(EventView::Refreshed(first));
            let paused = if first is Ok {
                attempted
            } else {
                attempted.next(EventView::Reconnected(reconnection))
            };
            let woken = paused.next(EventView::Woke);
            let done = woken.next(EventView::Refreshed(Ok(batch)));
            &&& first is Err ==> attempted.pending_action() == Action::Reconnect
            &&& paused.pending_action() == Action::Sleep(state.update_interval)
            &&& woken.pending_action() == Action::Refresh
            &&& done.states == refreshed(attempted.states, batch)
            &&& first is Err ==> attempted.states == state.states
        }),
{
}

/// The message that refuses a service call without a domain.
pub open spec fn empty_domain_message() -> Seq<char> {
    "domain must not be empty"@
}

/// The message that refuses a service call without a service name.
pub open spec fn empty_service_message() -> Seq<char> {
    "service must not be empty"@
}

/// The supervisor of one hub connection: where the hub is, how often to
/// refresh, where the keep-alive loop stands, and the last state of every
/// entity that a refresh has brought.
pub struct PersistentHassConnection {
    url: String,
    token: String,
    states: StringHashMap<EntityState>,
    update_interval: Duration,
    loop_state: LoopState,
}

impl View for PersistentHassConnection {
    type V = ConnectionView;

    closed spec fn view(&self) -> ConnectionView {
        ConnectionView {
            url: self.url@,
            token: self.token@,
            states: cache_view(self.states@),
            update_interval: self.update_interval,
            loop_state: self.loop_state,
        }
    }
}

impl PersistentHassConnection {
    /// Sets the supervisor up once the first session has been opened and
    /// authenticated, which `session` reports. With a session the
    /// supervisor starts with an empty cache and a loop about to refresh;
    /// without one there is no supervisor, and the failure is handed back.
    pub fn new(
        url: String,
        token: String,
        update_interval: Duration,
        session: Result<(), String>,
    ) -> (res: Result<Self, String>)
        ensures
            session is Ok ==> res is Ok && res->Ok_0@ == (ConnectionView {
                url: url@,
                token: token@,
                states: Map::empty(),
                update_interval,
                loop_state: LoopState::Running(Pending::Refresh),
            }),
            session matches Err(message) ==> res is Err && res->Err_0@ == message@,
    {
        match session {
            Ok(()) => {
                let connection = PersistentHassConnection {
                    url,
                    token,
                    states: StringHashMap::new(),
                    update_interval,
                    loop_state: LoopState::Running(Pending::Refresh),
                };
                assert(connection@.states =~= Map::empty());
                Ok(connection)
            },
            Err(message) => Err(message),
        }
    }

    /// The address of the hub.
    pub fn url(&self) -> (res: &str)
        ensures
            res@ == self@.url,
    {
        self.url.as_str()
    }

    /// The access token.
    pub fn token(&self) -> (res: &str)
        ensures
            res@ == self@.token,
    {
        self.token.as_str()
    }

    /// The pause between two refresh cycles.
    pub fn update_interval(&self) -> (res: Duration)
        ensures
            res == self@.update_interval,
    {
        self.update_interval
    }

    /// Where the keep-alive loop stands.
    pub fn loop_state(&self) -> (res: LoopState)
        ensures
            res == self@.loop_state,
    {
        self.loop_state
    }

    /// What the keep-alive loop has to do now.
    pub fn pending_action(&self) -> (res: Action)
        ensures
            res == self@.pending_action(),
    {
        match self.loop_state {
            LoopState::Running(Pending::Refresh) => Action::Refresh,
            LoopState::Running(Pending::Reconnect) => Action::Reconnect,
            LoopState::Running(Pending::Sleep) => Action::Sleep(self.update_interval),
            LoopState::ShuttingDown => Action::Stop,
        }
    }

    /// Prepares a call of the service `service` of `domain`. Both names
    /// must be given; nothing else is checked. The call is to be issued
    /// once on the current session, and its failure handed to the caller
    /// as it comes: the supervisor neither retries nor reconnects for it.
    pub fn call_service(&self, domain: &str, service: &str, data: Option<serde_json::Value>) -> (res:
        Result<ServiceCall, String>)
        ensures
            res is Err <==> domain@.len() == 0 || service@.len() == 0,
            res matches Err(message) ==> message@ == (if domain@.len() == 0 {
                empty_domain_message()
            } else {
                empty_service_message()
            }),
            res matches Ok(call) ==> call.domain@ == domain@ && call.service@ == service@
                && call.data == data,
    {
        if domain.is_empty() {
            Err("domain must not be empty".to_owned())
        } else if service.is_empty() {
            Err("service must not be empty".to_owned())
        } else {
            Ok(ServiceCall { domain: domain.to_owned(), service: service.to_owned(), data })
        }
    }

    /// Takes in the outcome of fetching all entity states. Fetched states
    /// are written into the cache, each under its entity id, and no entry
    /// is removed. A failure leaves the cache as it was and is handed back.
    pub fn fetch_states(&mut self, fetched: Result<Vec<EntityState>, String>) -> (res: Result<
        (),
        String,
    >)
        ensures
            fetched matches Ok(states) ==> res is Ok && final(self)@ == (ConnectionView {
                states: refreshed(old(self)@.states, batch_view(states@)),
                ..old(self)@
            }),
            fetched matches Err(message) ==> res is Err && res->Err_0@ == message@ && final(self)@
                == old(self)@,
    {
        match fetched {
            Ok(states) => {
                let ghost before = cache_view(self.states@);
                let ghost batch = batch_view(states@);
                assert(batch.take(0) =~= Seq::<EntityStateView>::empty());
                assert(cache_view(self.states@) =~= refreshed(before, batch.take(0)));
                for state in it: states
                    invariant
                        it.seq() == states@,
                        batch == batch_view(states@),
                        self.url == old(self).url,
                        self.token == old(self).token,
                        self.update_interval == old(self).update_interval,
                        self.loop_state == old(self).loop_state,
                        cache_view(self.states@) == refreshed(before, batch.take(it.index())),
                {
                    let ghost i = it.index();
                    let ghost stored = self.states@;
                    proof {
                        lemma_refreshed_push(before, batch.take(i), state@);
                        assert(batch.take(i).push(state@) =~= batch.take(i + 1));
                    }
                    let key = state.entity_id.clone();
                    self.states.insert(key, state);
                    assert(cache_view(self.states@) =~= cache_view(stored).insert(
                        state@.entity_id,
                        state@,
                    ));
                }
                assert(batch.take(batch.len() as int) =~= batch);
                Ok(())
            },
            Err(message) => Err(message),
        }
    }

    /// The cached state of the entity `entity_id`: a copy of its entry, or
    /// nothing for an entity that no refresh has brought.
    pub fn get_state(&self, entity_id: &str) -> (res: Option<EntityState>)
        ensures
            res is Some <==> self@.states.contains_key(entity_id@),
            res matches Some(state) ==> state@ == self@.states[entity_id@],
    {
        match self.states.get(entity_id) {
            Some(state) => Some(state.clone()),
            None => None,
        }
    }

    /// One turn of the keep-alive loop: takes in `event`, the outcome of
    /// the action that the loop was waiting for, and answers with the next
    /// action. The shutdown signal ends the loop. Fetched states go into
    /// the cache and the loop pauses; a failed fetch asks for a
    /// reconnection, after which the loop pauses whether or not the
    /// reconnection succeeded; after the pause the loop refreshes again.
    /// An event that the loop was not waiting for changes nothing, and the
    /// answer repeats the action that is still due.
    pub fn keep_alive(&mut self, event: Event) -> (step: Step)
        ensures
            final(self)@ == old(self)@.next(event@),
            step.action == final(self)@.pending_action(),
            notice_view(step.notice) == old(self)@.notice(event@),
    {
        let mut notice: Option<Notice> = None;
        match self.loop_state {
            LoopState::Running(Pending::Refresh) => match event {
                Event::ShutdownRequested => {
                    self.loop_state = LoopState::ShuttingDown;
                    notice = Some(Notice::ClosingConnection);
                },
                Event::Refreshed(fetched) => match self.fetch_states(fetched) {
                    Ok(()) => {
                        self.loop_state = LoopState::Running(Pending::Sleep);
                    },
                    Err(message) => {
                        self.loop_state = LoopState::Running(Pending::Reconnect);
                        notice = Some(Notice::FetchFailed(message));
                    },
                },
                _ => {},
            },
            LoopState::Running(Pending::Reconnect) => match event {
                Event::Reconnected(Ok(())) => {
                    self.loop_state = LoopState::Running(Pending::Sleep);
                    notice = Some(Notice::ClientReplaced);
                },
                Event::Reconnected(Err(message)) => {
                    self.loop_state = LoopState::Running(Pending::Sleep);
                    notice = Some(Notice::ReplaceFailed(message));
                },
                _ => {},
            },
            LoopState::Running(Pending::Sleep) => match event {
                Event::Woke => {
                    self.loop_state = LoopState::Running(Pending::Refresh);
                },
                _ => {},
            },
            LoopState::ShuttingDown => {},
        }
        Step { action: self.pending_action(), notice }
    }
}

} // verus!
