use vstd::prelude::*;

verus! {

/// Identifier of the security (audit) log buffer.
pub const LOG_ID_SECURITY: u32 = 6;

/// A backend call reported an error. No details are provided.
#[derive(Clone, Copy, Debug, PartialEq, Eq, Structural)]
pub struct LogContextError;

/// Whether a context for `log_type` may be created, given whether security
/// logging is enabled: only the security buffer can be switched off.
pub open spec fn is_admitted(log_type: u32, security_enabled: bool) -> bool {
    log_type != LOG_ID_SECURITY || security_enabled
}

/// What a backend status code means: negative is failure, anything else success.
pub open spec fn status_result(status: i32) -> Result<(), LogContextError> {
    if status < 0 {
        Err(LogContextError)
    } else {
        Ok(())
    }
}

/// Whether security logging is enabled, from the value that the backend's
/// security query returned (non-zero means enabled).
pub fn security_log_enabled(query: i32) -> (r: bool)
    ensures
        r == (query != 0),
{
    query != 0
}

/// Converts a backend status code into a `Result`.
pub fn check_liblog_result(status: i32) -> (r: Result<(), LogContextError>)
    ensures
        r == status_result(status),
{
    if status < 0 {
        Err(LogContextError)
    } else {
        Ok(())
    }
}

/// One entry of a record, as the backend received it.
pub enum Item {
    Int32(i32),
    Int64(i64),
    /// A 32-bit float, by its bit pattern.
    Float32(u32),
    Text(Seq<char>),
    ListBegin,
    ListEnd,
}

/// One entry of a record.
#[derive(Debug, PartialEq)]
pub enum Value {
    Int32(i32),
    Int64(i64),
    /// A 32-bit float, held as its IEEE-754 bit pattern.
    Float32(u32),
    Text(String),
    ListBegin,
    ListEnd,
}

impl View for Value {
    type V = Item;

    open spec fn view(&self) -> Item {
        match self {
            Value::Int32(v) => Item::Int32(*v),
            Value::Int64(v) => Item::Int64(*v),
            Value::Float32(v) => Item::Float32(*v),
            Value::Text(s) => Item::Text(s@),
            Value::ListBegin => Item::ListBegin,
            Value::ListEnd => Item::ListEnd,
        }
    }
}

/// The abstract state of a live context: the buffer it targets, its tag,
/// and the entries the backend has accepted, in call order.
pub struct LogContextView {
    pub log_type: u32,
    pub tag: u32,
    pub record: Seq<Item>,
}

impl LogContextView {
    /// A context that has just been created.
    pub open spec fn fresh(log_type: u32, tag: u32) -> LogContextView {
        LogContextView { log_type, tag, record: Seq::empty() }
    }

    /// This context after the backend accepted `item`.
    pub open spec fn appended(self, item: Item) -> LogContextView {
        LogContextView { record: self.record.push(item), ..self }
    }
}

/// A live event log context: a record under construction for one log
/// buffer.
///
/// Every step consumes the context and hands it back only when the backend
/// accepted the call, so a context that failed, or was written, cannot be
/// used again. A context that was dropped without `write` must have its
/// backend state destroyed by its owner; one that was written must not,
/// since writing releases it.
pub struct LogContext {
    log_type: u32,
    tag: u32,
    record: Vec<Value>,
}

impl View for LogContext {
    type V = LogContextView;

    closed spec fn view(&self) -> LogContextView {
        LogContextView {
            log_type: self.log_type,
            tag: self.tag,
            record: self.record@.map_values(|v: Value| v@),
        }
    }
}

impl LogContext {
    /// Whether a context for `log_type` may be created. When it may not, no
    /// backend state is to be allocated.
    pub fn may_create(log_type: u32, security_enabled: bool) -> (r: bool)
        ensures
            r == is_admitted(log_type, security_enabled),
    {
        log_type != LOG_ID_SECURITY || security_enabled
    }

    /// Creates a context for a given event tag. `allocated` tells whether the
    /// backend handed out encoding state for `tag`; it is not consulted when
    /// the buffer is switched off.
    pub fn new(log_type: u32, tag: u32, security_enabled: bool, allocated: bool) -> (r: Option<
        LogContext,
    >)
        ensures
            r is Some <==> is_admitted(log_type, security_enabled) && allocated,
            r is Some ==> r->Some_0@ == LogContextView::fresh(log_type, tag),
    {
        if !Self::may_create(log_type, security_enabled) {
            return None;
        }
        if allocated {
            let c = LogContext { log_type, tag, record: Vec::new() };
            proof {
                assert(c@.record =~= Seq::<Item>::empty());
            }
            Some(c)
        } else {
            None
        }
    }

    /// The log buffer this context targets.
    pub fn log_type(&self) -> (r: u32)
        ensures
            r == self@.log_type,
    {
        self.log_type
    }

    /// The event tag of this context.
    pub fn tag(&self) -> (r: u32)
        ensures
            r == self@.tag,
    {
        self.tag
    }

    /// The entries the backend has accepted so far, in call order.
    pub fn record(&self) -> (r: &Vec<Value>)
        ensures
            r@.map_values(|v: Value| v@) == self@.record,
    {
        &self.record
    }

    /// Keeps `value` in the record if the backend call that wrote it
    /// returned a non-negative `status`.
    fn accept(self, value: Value, status: i32) -> (r: Result<Self, LogContextError>)
        ensures
            r is Ok <==> status >= 0,
            r is Ok ==> r->Ok_0@ == self@.appended(value@),
    {
        let item = Ghost(value@);
        check_liblog_result(status)?;
        let mut c = self;
        c.record.push(value);
        proof {
            assert(c@.record =~= self@.record.push(item@));
        }
        Ok(c)
    }

    /// Appends an i32, given the status of the backend's 32-bit integer write.
    pub fn append_i32(self, data: i32, status: i32) -> (r: Result<Self, LogContextError>)
        ensures
            r is Ok <==> status >= 0,
            r is Ok ==> r->Ok_0@ == self@.appended(Item::Int32(data)),
    {
        self.accept(Value::Int32(data), status)
    }

    /// Appends an i64, given the status of the backend's 64-bit integer write.
    pub fn append_i64(self, data: i64, status: i32) -> (r: Result<Self, LogContextError>)
        ensures
            r is Ok <==> status >= 0,
            r is Ok ==> r->Ok_0@ == self@.appended(Item::Int64(data)),
    {
        self.accept(Value::Int64(data), status)
    }

    /// Appends an f32, given by its bit pattern, and the status of the
    /// backend's float write.
    pub fn append_f32(self, data: u32, status: i32) -> (r: Result<Self, LogContextError>)
        ensures
            r is Ok <==> status >= 0,
            r is Ok ==> r->Ok_0@ == self@.appended(Item::Float32(data)),
    {
        self.accept(Value::Float32(data), status)
    }

    /// Appends a string, given the status of the backend's write of its
    /// bytes and byte length.
    pub fn append_str(self, data: &str, status: i32) -> (r: Result<Self, LogContextError>)
        ensures
            r is Ok <==> status >= 0,
            r is Ok ==> r->Ok_0@ == self@.appended(Item::Text(data@)),
    {
        self.accept(Value::Text(data.to_owned()), status)
    }

    /// Begins a sublist of values, given the status of the backend's call.
    /// Nesting is tracked by the backend, not checked here.
    pub fn begin_list(self, status: i32) -> (r: Result<Self, LogContextError>)
        ensures
            r is Ok <==> status >= 0,
            r is Ok ==> r->Ok_0@ == self@.appended(Item::ListBegin),
    {
        self.accept(Value::ListBegin, status)
    }

    /// Ends a sublist of values, given the status of the backend's call.
    /// Balance is the backend's affair: an unmatched end is passed through.
    pub fn end_list(self, status: i32) -> (r: Result<Self, LogContextError>)
        ensures
            r is Ok <==> status >= 0,
            r is Ok ==> r->Ok_0@ == self@.appended(Item::ListEnd),
    {
        self.accept(Value::ListEnd, status)
    }

    /// Writes the context to its log buffer and consumes it, given the
    /// status of the backend's write of the whole record, which also
    /// releases the backend state.
    pub fn write(self, status: i32) -> (r: Result<(), LogContextError>)
        ensures
            r == status_result(status),
    {
        check_liblog_result(status)
    }
}

} // verus!
