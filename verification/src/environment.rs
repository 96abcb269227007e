//! The state that one guest instance keeps between the calls of the protocol:
//! who it is, what it was asked to do, and how its one call into the host
//! stands.

use vstd::prelude::*;

verus! {

/// A request from outside that waits for the guest: the name of an operation
/// and a message that the host does not interpret.
#[derive(Debug)]
pub struct Invocation {
    pub operation: String,
    pub msg: Vec<u8>,
}

/// What an [`Invocation`] holds.
pub struct InvocationView {
    pub operation: Seq<char>,
    pub msg: Seq<u8>,
}

impl View for Invocation {
    type V = InvocationView;

    open spec fn view(&self) -> InvocationView {
        InvocationView { operation: self.operation@, msg: self.msg@ }
    }
}

/// How the guest's call into the host stands. An instance has one call at a
/// time, so one value holds the response and the error: they cannot both be
/// there.
#[derive(Debug)]
pub enum HostCall {
    /// No call was made yet.
    Idle,
    /// The guest made a call, and the handler has not answered.
    RequestStaged,
    /// The handler answered with these bytes.
    CompletedOk(Vec<u8>),
    /// The call failed with this text.
    CompletedErr(String),
}

/// What a [`HostCall`] holds.
pub enum HostCallView {
    Idle,
    RequestStaged,
    CompletedOk(Seq<u8>),
    CompletedErr(Seq<char>),
}

impl View for HostCall {
    type V = HostCallView;

    open spec fn view(&self) -> HostCallView {
        match self {
            HostCall::Idle => HostCallView::Idle,
            HostCall::RequestStaged => HostCallView::RequestStaged,
            HostCall::CompletedOk(bytes) => HostCallView::CompletedOk(bytes@),
            HostCall::CompletedErr(text) => HostCallView::CompletedErr(text@),
        }
    }
}

impl HostCallView {
    /// The response slot: the bytes of the last call, if it succeeded.
    pub open spec fn response(self) -> Option<Seq<u8>> {
        match self {
            HostCallView::CompletedOk(bytes) => Some(bytes),
            _ => None,
        }
    }

    /// The error slot: the text of the last call's failure, if it failed.
    pub open spec fn error(self) -> Option<Seq<char>> {
        match self {
            HostCallView::CompletedErr(text) => Some(text),
            _ => None,
        }
    }
}

/// The state of one guest instance. `H` is the shared handle to the resource
/// table, which the state carries for the handlers of host calls.
pub struct EnvironmentState<H> {
    resource_table: H,
    id: u64,
    guest_request: Option<Invocation>,
    host_call: HostCall,
    guest_response: Option<Vec<u8>>,
    guest_error: Option<String>,
}

/// What an [`EnvironmentState`] holds.
pub struct EnvironmentView<H> {
    pub resource_table: H,
    pub id: u64,
    pub guest_request: Option<InvocationView>,
    pub host_call: HostCallView,
    pub guest_response: Option<Seq<u8>>,
    pub guest_error: Option<Seq<char>>,
}

impl<H> View for EnvironmentState<H> {
    type V = EnvironmentView<H>;

    closed spec fn view(&self) -> EnvironmentView<H> {
        EnvironmentView {
            resource_table: self.resource_table,
            id: self.id,
            guest_request: match self.guest_request {
                Some(invocation) => Some(invocation@),
                None => None,
            },
            host_call: self.host_call@,
            guest_response: match self.guest_response {
                Some(bytes) => Some(bytes@),
                None => None,
            },
            guest_error: match self.guest_error {
                Some(text) => Some(text@),
                None => None,
            },
        }
    }
}

impl<H> EnvironmentState<H> {
    /// The state of a new instance: nothing waits for the guest, and it has
    /// made no call.
    pub fn new(id: u64, resource_table: H) -> (state: EnvironmentState<H>)
        ensures
            state@ == (EnvironmentView {
                resource_table,
                id,
                guest_request: None,
                host_call: HostCallView::Idle,
                guest_response: None,
                guest_error: None,
            }),
    {
        EnvironmentState {
            resource_table,
            id,
            guest_request: None,
            host_call: HostCall::Idle,
            guest_response: None,
            guest_error: None,
        }
    }

    /// Records that the guest made a call: what the last call left is gone.
    pub fn stage_host_call(&mut self)
        ensures
            final(self)@ == (EnvironmentView { host_call: HostCallView::RequestStaged, ..old(self)@ }),
    {
        self.host_call = HostCall::RequestStaged;
    }

    /// Records the bytes with which a call succeeded, in place of what the last
    /// call left.
    pub fn set_host_response(&mut self, response: Vec<u8>)
        ensures
            final(self)@ == (EnvironmentView {
                host_call: HostCallView::CompletedOk(response@),
                ..old(self)@
            }),
    {
        self.host_call = HostCall::CompletedOk(response);
    }

    /// Records the text with which a call failed, in place of what the last
    /// call left.
    pub fn set_host_error(&mut self, error: String)
        ensures
            final(self)@ == (EnvironmentView {
                host_call: HostCallView::CompletedErr(error@),
                ..old(self)@
            }),
    {
        self.host_call = HostCall::CompletedErr(error);
    }

    /// Hands the guest a request from outside, or takes the waiting one away.
    pub fn set_guest_request(&mut self, request: Option<Invocation>)
        ensures
            final(self)@ == (EnvironmentView {
                guest_request: match request {
                    Some(invocation) => Some(invocation@),
                    None => None,
                },
                ..old(self)@
            }),
    {
        self.guest_request = request;
    }

    /// Records the guest's final result.
    pub fn set_guest_response(&mut self, response: Vec<u8>)
        ensures
            final(self)@ == (EnvironmentView { guest_response: Some(response@), ..old(self)@ }),
    {
        self.guest_response = Some(response);
    }

    /// Records the guest's final error.
    pub fn set_guest_error(&mut self, error: String)
        ensures
            final(self)@ == (EnvironmentView { guest_error: Some(error@), ..old(self)@ }),
    {
        self.guest_error = Some(error);
    }

    /// The identity of the instance.
    pub fn id(&self) -> (id: u64)
        ensures
            id == self@.id,
    {
        self.id
    }

    /// The shared handle to the resource table.
    pub fn resource_table(&self) -> (table: &H)
        ensures
            *table == self@.resource_table,
    {
        &self.resource_table
    }

    /// The request that waits for the guest, if there is one.
    pub fn get_guest_request(&self) -> (request: Option<&Invocation>)
        ensures
            match request {
                Some(invocation) => self@.guest_request == Some(invocation@),
                None => self@.guest_request is None,
            },
    {
        self.guest_request.as_ref()
    }

    /// How the guest's call into the host stands.
    pub fn host_call(&self) -> (call: &HostCall)
        ensures
            call@ == self@.host_call,
    {
        &self.host_call
    }

    /// The bytes of the last call, if it succeeded.
    pub fn get_host_response(&self) -> (response: Option<&Vec<u8>>)
        ensures
            match response {
                Some(bytes) => self@.host_call.response() == Some(bytes@),
                None => self@.host_call.response() is None,
            },
    {
        match &self.host_call {
            HostCall::CompletedOk(bytes) => Some(bytes),
            _ => None,
        }
    }

    /// The text of the last call's failure, if it failed.
    pub fn get_host_error(&self) -> (error: Option<&String>)
        ensures
            match error {
                Some(text) => self@.host_call.error() == Some(text@),
                None => self@.host_call.error() is None,
            },
    {
        match &self.host_call {
            HostCall::CompletedErr(text) => Some(text),
            _ => None,
        }
    }

    /// The guest's final result, if it gave one.
    pub fn get_guest_response(&self) -> (response: Option<&Vec<u8>>)
        ensures
            match response {
                Some(bytes) => self@.guest_response == Some(bytes@),
                None => self@.guest_response is None,
            },
    {
        self.guest_response.as_ref()
    }

    /// The guest's final error, if it gave one.
    pub fn get_guest_error(&self) -> (error: Option<&String>)
        ensures
            match error {
                Some(text) => self@.guest_error == Some(text@),
                None => self@.guest_error is None,
            },
    {
        self.guest_error.as_ref()
    }
}

/// The response and the error of a host call are never there together.
pub proof fn lemma_response_and_error_exclude_each_other(call: HostCallView)
    ensures
        !(call.response() is Some && call.error() is Some),
{
}

} // verus!
