//! The ledger of long-running operations.
//!
//! A request that starts a slow hardware action returns at once with the
//! name of an operation; a background worker later writes the outcome into
//! the record under that name, and clients poll it. Every method is one
//! critical section: callers that share a ledger put it behind one lock and
//! hold the lock for a single call.

use crate::error::{Status, StatusCode, StatusView};
use vstd::hash_map::StringHashMap;
use vstd::prelude::*;
use vstd::string::*;

verus! {

/// The model of an [`Any`].
pub struct AnyView {
    pub type_url: Seq<char>,
    pub value: Seq<u8>,
}

/// A type-tagged binary payload.
#[derive(Debug)]
pub struct Any {
    /// Names the type that `value` encodes.
    pub type_url: String,
    /// The encoded value.
    pub value: Vec<u8>,
}

impl View for Any {
    type V = AnyView;

    open spec fn view(&self) -> AnyView {
        AnyView { type_url: self.type_url@, value: self.value@ }
    }
}

/// Copies a run of bytes.
pub fn copy_bytes(bytes: &Vec<u8>) -> (out: Vec<u8>)
    ensures
        out@ == bytes@,
{
    let mut out: Vec<u8> = Vec::new();
    let mut i: usize = 0;
    while i < bytes.len()
        invariant
            i <= bytes@.len(),
            out@ == bytes@.subrange(0, i as int),
        decreases bytes@.len() - i,
    {
        out.push(bytes[i]);
        i = i + 1;
        assert(out@ =~= bytes@.subrange(0, i as int));
    }
    assert(bytes@.subrange(0, i as int) =~= bytes@);
    out
}

impl Clone for Any {
    fn clone(&self) -> (r: Self)
        ensures
            r@ == self@,
    {
        Any { type_url: self.type_url.clone(), value: copy_bytes(&self.value) }
    }
}

/// The model of an [`OperationResult`].
pub enum OperationResultView {
    Error(StatusView),
    Response(AnyView),
}

/// How an operation ended.
#[derive(Debug)]
pub enum OperationResult {
    /// The operation failed.
    Error(Status),
    /// The operation succeeded with this response.
    Response(Any),
}

impl View for OperationResult {
    type V = OperationResultView;

    open spec fn view(&self) -> OperationResultView {
        match self {
            OperationResult::Error(s) => OperationResultView::Error(s@),
            OperationResult::Response(a) => OperationResultView::Response(a@),
        }
    }
}

impl Clone for OperationResult {
    fn clone(&self) -> (r: Self)
        ensures
            r@ == self@,
    {
        match self {
            OperationResult::Error(s) => OperationResult::Error(s.clone()),
            OperationResult::Response(a) => OperationResult::Response(a.clone()),
        }
    }
}

/// The model of an [`Operation`].
pub struct OperationView {
    pub name: Seq<char>,
    pub metadata: Option<AnyView>,
    pub done: bool,
    pub result: Option<OperationResultView>,
}

/// An in-flight or completed asynchronous action.
#[derive(Debug)]
pub struct Operation {
    /// The name under which the ledger keeps the operation.
    pub name: String,
    /// Progress of the action, encoded; its shape depends on the action.
    pub metadata: Option<Any>,
    /// Whether the action has ended.
    pub done: bool,
    /// How the action ended.
    pub result: Option<OperationResult>,
}

/// The model of an optional payload.
pub open spec fn any_view(a: Option<Any>) -> Option<AnyView> {
    match a {
        Some(a) => Some(a@),
        None => None,
    }
}

/// The model of an optional result.
pub open spec fn result_view(r: Option<OperationResult>) -> Option<OperationResultView> {
    match r {
        Some(r) => Some(r@),
        None => None,
    }
}

impl View for Operation {
    type V = OperationView;

    open spec fn view(&self) -> OperationView {
        OperationView {
            name: self.name@,
            metadata: any_view(self.metadata),
            done: self.done,
            result: result_view(self.result),
        }
    }
}

impl Clone for Operation {
    fn clone(&self) -> (r: Self)
        ensures
            r@ == self@,
    {
        let metadata = match &self.metadata {
            Some(a) => Some(a.clone()),
            None => None,
        };
        let result = match &self.result {
            Some(r) => Some(r.clone()),
            None => None,
        };
        Operation { name: self.name.clone(), metadata, done: self.done, result }
    }
}

/// The outcome of encoding a metadata value: its bytes, or why it could not
/// be encoded.
pub type Encoded = Result<Vec<u8>, String>;

/// The model of an [`Encoded`].
pub open spec fn encoded_view(e: Encoded) -> Result<Seq<u8>, Seq<char>> {
    match e {
        Ok(bytes) => Ok(bytes@),
        Err(why) => Err(why@),
    }
}

/// The record of a newly created operation: not done, no result, and the
/// metadata as given.
pub open spec fn created(name: Seq<char>, payload: Seq<u8>, type_url: Seq<char>) -> OperationView {
    OperationView {
        name,
        metadata: Some(AnyView { type_url, value: payload }),
        done: false,
        result: None,
    }
}

/// The status for a metadata value that could not be encoded.
pub open spec fn encode_failure(why: Seq<char>) -> StatusView {
    StatusView { code: StatusCode::Internal, message: "Failed to encode metadata: "@ + why }
}

/// The status for a metadata payload that could not be decoded.
pub open spec fn decode_failure(why: Seq<char>) -> StatusView {
    StatusView { code: StatusCode::Internal, message: "Failed to decode metadata: "@ + why }
}

/// The status for a name that the ledger does not hold.
pub open spec fn not_found() -> StatusView {
    StatusView { code: StatusCode::NotFound, message: "Operation not found"@ }
}

/// The status for an operation that is done and so cannot be changed.
pub open spec fn already_done() -> StatusView {
    StatusView { code: StatusCode::FailedPrecondition, message: "Operation is already done"@ }
}

/// The status for an operation that has no metadata to replace.
pub open spec fn no_metadata() -> StatusView {
    StatusView { code: StatusCode::Internal, message: "Operation has no metadata field"@ }
}

/// A ledger as a map from names to records.
pub type LedgerView = Map<Seq<char>, OperationView>;

/// Every record is kept under its own name.
pub open spec fn ledger_wf(ledger: LedgerView) -> bool {
    forall|name: Seq<char>| ledger.contains_key(name) ==> (#[trigger] ledger[name]).name == name
}

/// What `create` answers.
pub open spec fn create_outcome(
    name: Seq<char>,
    payload: Result<Seq<u8>, Seq<char>>,
    type_url: Seq<char>,
) -> Result<OperationView, StatusView> {
    match payload {
        Ok(bytes) => Ok(created(name, bytes, type_url)),
        Err(why) => Err(encode_failure(why)),
    }
}

/// The ledger after `create`: on success the new record stands under
/// `name`, replacing whatever stood there; on failure nothing changes.
pub open spec fn after_create(
    ledger: LedgerView,
    name: Seq<char>,
    payload: Result<Seq<u8>, Seq<char>>,
    type_url: Seq<char>,
) -> LedgerView {
    match payload {
        Ok(bytes) => ledger.insert(name, created(name, bytes, type_url)),
        Err(_) => ledger,
    }
}

/// What `update_metadata` answers: a missing name is reported first, then
/// an encoding failure, then a record that is done, then a record without
/// metadata.
pub open spec fn update_outcome(
    ledger: LedgerView,
    name: Seq<char>,
    payload: Result<Seq<u8>, Seq<char>>,
) -> Result<(), StatusView> {
    if !ledger.contains_key(name) {
        Err(not_found())
    } else {
        match payload {
            Err(why) => Err(encode_failure(why)),
            Ok(_) => if ledger[name].done {
                Err(already_done())
            } else if ledger[name].metadata is None {
                Err(no_metadata())
            } else {
                Ok(())
            },
        }
    }
}

/// The record after a successful `update_metadata`: the payload is
/// replaced as a whole, the type tag stays, and the record is done exactly
/// if asked for. Only a record that is not done is ever updated.
pub open spec fn updated(op: OperationView, payload: Seq<u8>, mark_done: bool) -> OperationView
    recommends
        op.metadata is Some,
        !op.done,
{
    OperationView {
        metadata: Some(AnyView { type_url: op.metadata->0.type_url, value: payload }),
        done: mark_done,
        ..op
    }
}

/// The ledger after `update_metadata`: on success the record under `name`
/// is updated; on failure nothing changes. A record that is done is never
/// changed.
pub open spec fn after_update(
    ledger: LedgerView,
    name: Seq<char>,
    payload: Result<Seq<u8>, Seq<char>>,
    mark_done: bool,
) -> LedgerView {
    if update_outcome(ledger, name, payload) is Ok {
        ledger.insert(name, updated(ledger[name], payload->Ok_0, mark_done))
    } else {
        ledger
    }
}

/// The ledger of long-running operations.
pub struct OperationsServiceImpl {
    operation_store: StringHashMap<Operation>,
}

impl View for OperationsServiceImpl {
    type V = LedgerView;

    closed spec fn view(&self) -> LedgerView {
        Map::new(
            |name: Seq<char>| self.operation_store@.contains_key(name),
            |name: Seq<char>| self.operation_store@[name]@,
        )
    }
}

fn status_with_detail(prefix: &str, why: &str) -> (s: Status)
    ensures
        s@ == (StatusView { code: StatusCode::Internal, message: prefix@ + why@ }),
{
    let mut text = String::from_str(prefix);
    text.append(why);
    Status { code: StatusCode::Internal, message: text }
}

impl OperationsServiceImpl {
    /// An empty ledger.
    pub fn new() -> (ledger: OperationsServiceImpl)
        ensures
            ledger@ == Map::<Seq<char>, OperationView>::empty(),
            ledger_wf(ledger@),
    {
        let ledger = OperationsServiceImpl { operation_store: StringHashMap::new() };
        assert(ledger@ =~= Map::<Seq<char>, OperationView>::empty());
        ledger
    }

    /// Starts tracking an operation under `name` and returns a copy of its
    /// record. A record already kept under `name` is replaced.
    pub fn create(&mut self, name: String, metadata: Encoded, type_url: &str) -> (r: Result<
        Operation,
        Status,
    >)
        ensures
            final(self)@ == after_create(old(self)@, name@, encoded_view(metadata), type_url@),
            match create_outcome(name@, encoded_view(metadata), type_url@) {
                Ok(op) => r is Ok && r->Ok_0@ == op,
                Err(status) => r is Err && r->Err_0@ == status,
            },
            ledger_wf(old(self)@) ==> ledger_wf(final(self)@),
    {
        match metadata {
            Err(why) => Err(status_with_detail("Failed to encode metadata: ", why.as_str())),
            Ok(bytes) => {
                let operation = Operation {
                    name: name.clone(),
                    metadata: Some(Any { type_url: String::from_str(type_url), value: bytes }),
                    done: false,
                    result: None,
                };
                let copy = operation.clone();
                self.operation_store.insert(name, operation);
                assert(self@ =~= after_create(
                    old(self)@,
                    name@,
                    encoded_view(metadata),
                    type_url@,
                ));
                Ok(copy)
            },
        }
    }

    /// Starts tracking an operation that was assembled elsewhere, under its
    /// own name. A record already kept under that name is replaced.
    pub fn insert(&mut self, operation: Operation)
        ensures
            final(self)@ == old(self)@.insert(operation@.name, operation@),
            ledger_wf(old(self)@) ==> ledger_wf(final(self)@),
    {
        let name = operation.name.clone();
        self.operation_store.insert(name, operation);
        assert(self@ =~= old(self)@.insert(operation@.name, operation@));
    }

    /// A copy of the record kept under `name`.
    pub fn get_operation(&self, name: &str) -> (r: Result<Operation, Status>)
        ensures
            match r {
                Ok(op) => self@.contains_key(name@) && op@ == self@[name@],
                Err(status) => !self@.contains_key(name@) && status@ == not_found(),
            },
    {
        match self.operation_store.get(name) {
            Some(operation) => Ok(operation.clone()),
            None => Err(Status::not_found("Operation not found")),
        }
    }

    /// The metadata payload kept under `name`, for the caller to decode;
    /// `None` where the name is unknown or its record has no metadata.
    pub fn get_metadata(&self, name: &str) -> (r: Option<Vec<u8>>)
        ensures
            match r {
                Some(bytes) => self@.contains_key(name@) && self@[name@].metadata is Some
                    && bytes@ == self@[name@].metadata->0.value,
                None => !self@.contains_key(name@) || self@[name@].metadata is None,
            },
    {
        match self.operation_store.get(name) {
            Some(operation) => match &operation.metadata {
                Some(metadata) => Some(copy_bytes(&metadata.value)),
                None => None,
            },
            None => None,
        }
    }

    /// Replaces the metadata payload of the record kept under `name`, and
    /// marks the operation done if `mark_done` is set. An operation that is
    /// done is immutable: the update is refused and the record stays as it
    /// is.
    pub fn update_metadata(&mut self, name: &str, metadata: Encoded, mark_done: bool) -> (r:
        Result<(), Status>)
        ensures
            final(self)@ == after_update(old(self)@, name@, encoded_view(metadata), mark_done),
            match update_outcome(old(self)@, name@, encoded_view(metadata)) {
                Ok(_) => r is Ok,
                Err(status) => r is Err && r->Err_0@ == status,
            },
            ledger_wf(old(self)@) ==> ledger_wf(final(self)@),
    {
        let replacement = match self.operation_store.get(name) {
            None => {
                return Err(Status::not_found("Operation not found"));
            },
            Some(operation) => {
                match metadata {
                    Err(why) => {
                        return Err(
                            status_with_detail("Failed to encode metadata: ", why.as_str()),
                        );
                    },
                    Ok(bytes) => {
                        if operation.done {
                            return Err(
                                Status::new(
                                    StatusCode::FailedPrecondition,
                                    "Operation is already done",
                                ),
                            );
                        }
                        match &operation.metadata {
                            None => {
                                return Err(Status::internal("Operation has no metadata field"));
                            },
                            Some(existing) => {
                                let result = match &operation.result {
                                    Some(r) => Some(r.clone()),
                                    None => None,
                                };
                                Operation {
                                    name: operation.name.clone(),
                                    metadata: Some(
                                        Any { type_url: existing.type_url.clone(), value: bytes },
                                    ),
                                    done: mark_done,
                                    result,
                                }
                            },
                        }
                    },
                }
            },
        };
        self.operation_store.insert(String::from_str(name), replacement);
        assert(self@ =~= after_update(old(self)@, name@, encoded_view(metadata), mark_done));
        Ok(())
    }

    /// Listing operations is not offered.
    pub fn list_operations(&self) -> (r: Result<Vec<Operation>, Status>)
        ensures
            r is Err,
            r->Err_0@ == (StatusView {
                code: StatusCode::Unimplemented,
                message: "ListOperations is not implemented"@,
            }),
    {
        Err(Status::unimplemented("ListOperations is not implemented"))
    }

    /// Cancelling an operation is not offered.
    pub fn cancel_operation(&self, name: &str) -> (r: Result<(), Status>)
        ensures
            r is Err,
            r->Err_0@ == (StatusView {
                code: StatusCode::Unimplemented,
                message: "CancelOperation is not implemented"@,
            }),
    {
        Err(Status::unimplemented("CancelOperation is not implemented"))
    }

    /// Deleting an operation is not offered.
    pub fn delete_operation(&self, name: &str) -> (r: Result<(), Status>)
        ensures
            r is Err,
            r->Err_0@ == (StatusView {
                code: StatusCode::Unimplemented,
                message: "DeleteOperation is not implemented"@,
            }),
    {
        Err(Status::unimplemented("DeleteOperation is not implemented"))
    }

    /// Waiting for an operation is not offered.
    pub fn wait_operation(&self, name: &str) -> (r: Result<Operation, Status>)
        ensures
            r is Err,
            r->Err_0@ == (StatusView {
                code: StatusCode::Unimplemented,
                message: "WaitOperation is not implemented"@,
            }),
    {
        Err(Status::unimplemented("WaitOperation is not implemented"))
    }
}

/// Turns the outcome of decoding a metadata payload into the answer to a
/// metadata request: no payload gives `None`, a decoded value is passed on,
/// and a payload that does not decode is an internal failure that names the
/// reason.
pub fn metadata_reply<T>(decoded: Option<Result<T, String>>) -> (r: Result<Option<T>, Status>)
    ensures
        match decoded {
            None => r == Ok::<Option<T>, Status>(None),
            Some(Ok(value)) => r == Ok::<Option<T>, Status>(Some(value)),
            Some(Err(why)) => r is Err && r->Err_0@ == decode_failure(why@),
        },
{
    match decoded {
        None => Ok(None),
        Some(Ok(value)) => Ok(Some(value)),
        Some(Err(why)) => Err(status_with_detail("Failed to decode metadata: ", why.as_str())),
    }
}

/// One write to the ledger, as the lock serialises it.
pub enum Write {
    /// A call of `create`.
    Create { name: Seq<char>, payload: Result<Seq<u8>, Seq<char>>, type_url: Seq<char> },
    /// A call of `update_metadata`.
    Update { name: Seq<char>, payload: Result<Seq<u8>, Seq<char>>, mark_done: bool },
}

impl Write {
    /// The name that the write addresses.
    pub open spec fn name(self) -> Seq<char> {
        match self {
            Write::Create { name, .. } => name,
            Write::Update { name, .. } => name,
        }
    }

    /// The payload that the write carries.
    pub open spec fn payload(self) -> Result<Seq<u8>, Seq<char>> {
        match self {
            Write::Create { payload, .. } => payload,
            Write::Update { payload, .. } => payload,
        }
    }
}

/// The ledger after one write.
pub open spec fn applied(ledger: LedgerView, w: Write) -> LedgerView {
    match w {
        Write::Create { name, payload, type_url } => after_create(ledger, name, payload, type_url),
        Write::Update { name, payload, mark_done } => after_update(
            ledger,
            name,
            payload,
            mark_done,
        ),
    }
}

/// The ledger after a sequence of writes, in the order in which the lock
/// admitted them.
pub open spec fn applied_all(ledger: LedgerView, ws: Seq<Write>) -> LedgerView
    decreases ws.len(),
{
    if ws.len() == 0 {
        ledger
    } else {
        applied(applied_all(ledger, ws.drop_last()), ws.last())
    }
}

/// Whatever writes are admitted in whatever order, every record stays under
/// its own name: a name never stands for two records, and no record is
/// found under a name other than its own.
pub proof fn law_ledger_wf(ledger: LedgerView, ws: Seq<Write>)
    requires
        ledger_wf(ledger),
    ensures
        ledger_wf(applied_all(ledger, ws)),
    decreases ws.len(),
{
    if ws.len() > 0 {
        law_ledger_wf(ledger, ws.drop_last());
    }
}

/// A write leaves the records under all other names as they are.
pub proof fn law_write_is_local(ledger: LedgerView, w: Write, other: Seq<char>)
    requires
        other != w.name(),
    ensures
        applied(ledger, w).contains_key(other) == ledger.contains_key(other),
        ledger.contains_key(other) ==> applied(ledger, w)[other] == ledger[other],
{
}

/// No torn writes: after any sequence of writes, the payload found under a
/// name is, as a whole, either the payload that one of the writes to that
/// name carried, or the payload that stood there before all of them.
pub proof fn law_no_torn_writes(ledger: LedgerView, ws: Seq<Write>, name: Seq<char>)
    requires
        applied_all(ledger, ws).contains_key(name),
        applied_all(ledger, ws)[name].metadata is Some,
    ensures
        ({
            let value = applied_all(ledger, ws)[name].metadata->0.value;
            ||| (ledger.contains_key(name) && ledger[name].metadata is Some
                && ledger[name].metadata->0.value == value)
            ||| exists|i: int|
                0 <= i < ws.len() && (#[trigger] ws[i]).name() == name && ws[i].payload() == Ok::<
                    Seq<u8>,
                    Seq<char>,
                >(value)
        }),
    decreases ws.len(),
{
    if ws.len() > 0 {
        let before = ws.drop_last();
        let prev = applied_all(ledger, before);
        let w = ws.last();
        let value = applied_all(ledger, ws)[name].metadata->0.value;
        if w.name() == name && applied(prev, w) != prev {
            assert(ws[ws.len() - 1] == w);
            assert(w.payload() == Ok::<Seq<u8>, Seq<char>>(value));
        } else {
            if w.name() != name {
                law_write_is_local(prev, w, name);
            }
            law_no_torn_writes(ledger, before, name);
            if !(ledger.contains_key(name) && ledger[name].metadata is Some
                && ledger[name].metadata->0.value == value) {
                let i = choose|i: int|
                    0 <= i < before.len() && (#[trigger] before[i]).name() == name
                        && before[i].payload() == Ok::<Seq<u8>, Seq<char>>(value);
                assert(ws[i] == before[i]);
            }
        }
    }
}

/// The last writer wins: once `create` has succeeded for a name, and as
/// long as no later write addresses that name, the record under it is
/// exactly the one that was created.
pub proof fn law_last_writer_wins(
    ledger: LedgerView,
    name: Seq<char>,
    payload: Seq<u8>,
    type_url: Seq<char>,
    later: Seq<Write>,
)
    requires
        forall|i: int| 0 <= i < later.len() ==> (#[trigger] later[i]).name() != name,
    ensures
        applied_all(
            after_create(ledger, name, Ok(payload), type_url),
            later,
        ).contains_key(name),
        applied_all(after_create(ledger, name, Ok(payload), type_url), later)[name] == created(
            name,
            payload,
            type_url,
        ),
    decreases later.len(),
{
    if later.len() > 0 {
        let start = after_create(ledger, name, Ok(payload), type_url);
        let before = later.drop_last();
        assert forall|i: int| 0 <= i < before.len() implies (#[trigger] before[i]).name()
            != name by {
            assert(before[i] == later[i]);
        }
        law_last_writer_wins(ledger, name, payload, type_url, before);
        law_write_is_local(applied_all(start, before), later.last(), name);
    }
}

/// No transition out of done: a record that is done is immutable under
/// updates. However many of them are admitted and whatever they carry, the
/// record stays exactly as it is: name, payload, mark and result.
pub proof fn law_done_is_final(ledger: LedgerView, ws: Seq<Write>, name: Seq<char>)
    requires
        ledger.contains_key(name),
        ledger[name].done,
        forall|i: int| 0 <= i < ws.len() ==> (#[trigger] ws[i]) is Update,
    ensures
        applied_all(ledger, ws).contains_key(name),
        applied_all(ledger, ws)[name] == ledger[name],
    decreases ws.len(),
{
    if ws.len() > 0 {
        let before = ws.drop_last();
        assert forall|i: int| 0 <= i < before.len() implies (#[trigger] before[i]) is Update by {
            assert(before[i] == ws[i]);
        }
        law_done_is_final(ledger, before, name);
        assert(ws.last() == ws[ws.len() - 1]);
    }
}

/// Whether `merged` is an interleaving of the writes of two writers: it
/// holds the writes of both, each writer's in that writer's order.
pub open spec fn interleaves(a: Seq<Write>, b: Seq<Write>, merged: Seq<Write>) -> bool
    decreases merged.len(),
{
    if merged.len() == 0 {
        a.len() == 0 && b.len() == 0
    } else {
        ||| (a.len() > 0 && a.last() == merged.last() && interleaves(
            a.drop_last(),
            b,
            merged.drop_last(),
        ))
        ||| (b.len() > 0 && b.last() == merged.last() && interleaves(
            a,
            b.drop_last(),
            merged.drop_last(),
        ))
    }
}

/// Every write of an interleaving is a write of one of the two writers.
pub proof fn lemma_interleaved_write(a: Seq<Write>, b: Seq<Write>, merged: Seq<Write>, i: int)
    requires
        interleaves(a, b, merged),
        0 <= i < merged.len(),
    ensures
        (exists|k: int| 0 <= k < a.len() && #[trigger] a[k] == merged[i]) || (exists|k: int|
            0 <= k < b.len() && #[trigger] b[k] == merged[i]),
    decreases merged.len(),
{
    let head = merged.drop_last();
    if a.len() > 0 && a.last() == merged.last() && interleaves(a.drop_last(), b, head) {
        if i == merged.len() - 1 {
            assert(a[a.len() - 1] == merged[i]);
        } else {
            lemma_interleaved_write(a.drop_last(), b, head, i);
            assert(head[i] == merged[i]);
            let front = a.drop_last();
            if exists|k: int| 0 <= k < front.len() && #[trigger] front[k] == head[i] {
                let k = choose|k: int| 0 <= k < front.len() && #[trigger] front[k] == head[i];
                assert(a[k] == merged[i]);
            }
        }
    } else {
        assert(b.len() > 0 && b.last() == merged.last() && interleaves(a, b.drop_last(), head));
        if i == merged.len() - 1 {
            assert(b[b.len() - 1] == merged[i]);
        } else {
            lemma_interleaved_write(a, b.drop_last(), head, i);
            assert(head[i] == merged[i]);
            let front = b.drop_last();
            if exists|k: int| 0 <= k < front.len() && #[trigger] front[k] == head[i] {
                let k = choose|k: int| 0 <= k < front.len() && #[trigger] front[k] == head[i];
                assert(b[k] == merged[i]);
            }
        }
    }
}

/// Uniqueness under concurrency: however the lock interleaves the writes of
/// two writers, the ledger stays well formed, and the payload found under a
/// name in the end is the whole payload of one write of one of the writers,
/// or the payload that stood there before.
pub proof fn law_concurrent_writers(
    ledger: LedgerView,
    a: Seq<Write>,
    b: Seq<Write>,
    merged: Seq<Write>,
    name: Seq<char>,
)
    requires
        ledger_wf(ledger),
        interleaves(a, b, merged),
        applied_all(ledger, merged).contains_key(name),
        applied_all(ledger, merged)[name].metadata is Some,
    ensures
        ledger_wf(applied_all(ledger, merged)),
        applied_all(ledger, merged)[name].name == name,
        ({
            let value = applied_all(ledger, merged)[name].metadata->0.value;
            ||| (ledger.contains_key(name) && ledger[name].metadata is Some
                && ledger[name].metadata->0.value == value)
            ||| (exists|k: int|
                0 <= k < a.len() && (#[trigger] a[k]).name() == name && a[k].payload() == Ok::<
                    Seq<u8>,
                    Seq<char>,
                >(value))
            ||| (exists|k: int|
                0 <= k < b.len() && (#[trigger] b[k]).name() == name && b[k].payload() == Ok::<
                    Seq<u8>,
                    Seq<char>,
                >(value))
        }),
{
    law_ledger_wf(ledger, merged);
    law_no_torn_writes(ledger, merged, name);
    let value = applied_all(ledger, merged)[name].metadata->0.value;
    if !(ledger.contains_key(name) && ledger[name].metadata is Some
        && ledger[name].metadata->0.value == value) {
        let i = choose|i: int|
            0 <= i < merged.len() && (#[trigger] merged[i]).name() == name && merged[i].payload()
                == Ok::<Seq<u8>, Seq<char>>(value);
        lemma_interleaved_write(a, b, merged, i);
        if exists|k: int| 0 <= k < a.len() && #[trigger] a[k] == merged[i] {
            let k = choose|k: int| 0 <= k < a.len() && #[trigger] a[k] == merged[i];
            assert(a[k].name() == name && a[k].payload() == Ok::<Seq<u8>, Seq<char>>(value));
        } else {
            let k = choose|k: int| 0 <= k < b.len() && #[trigger] b[k] == merged[i];
            assert(b[k].name() == name && b[k].payload() == Ok::<Seq<u8>, Seq<char>>(value));
        }
    }
}

} // verus!
