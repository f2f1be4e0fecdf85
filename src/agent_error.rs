use vstd::prelude::*;
use vstd::string::StringExecFns;

verus! {

/// A failure of the client that stores progress records.
#[derive(Debug)]
pub enum InfoClientError {
    /// The client could not be created.
    InitializationFailed(Option<String>),
    /// A request to the store failed.
    RequestFailed(Option<String>),
}

/// The text that stands for an optional detail.
pub open spec fn detail_text(detail: Option<String>) -> Seq<char> {
    match detail {
        Some(d) => d@,
        None => "None"@,
    }
}

fn joined(prefix: &str, rest: &str) -> (r: String)
    ensures
        r@ == prefix@ + rest@,
{
    let mut r = String::from_str(prefix);
    r.append(rest);
    r
}

impl InfoClientError {
    pub open spec fn message_spec(self) -> Seq<char> {
        match self {
            InfoClientError::InitializationFailed(d) => "initialization failed: "@ + detail_text(d),
            InfoClientError::RequestFailed(d) => "request failed: "@ + detail_text(d),
        }
    }

    /// The human-readable description of the failure.
    pub fn message(&self) -> (r: String)
        ensures
            r@ == self.message_spec(),
    {
        let (prefix, detail) = match self {
            InfoClientError::InitializationFailed(d) => ("initialization failed: ", d),
            InfoClientError::RequestFailed(d) => ("request failed: ", d),
        };
        match detail {
            Some(d) => joined(prefix, d.as_str()),
            None => joined(prefix, "None"),
        }
    }
}

/// The failures that originate with the agent itself.
#[derive(Debug)]
pub enum InnerError {
    Archive(String),
    InfoClient(InfoClientError),
}

impl InnerError {
    pub open spec fn message_spec(self) -> Seq<char> {
        match self {
            InnerError::Archive(s) => "An error occurred while creating archive: "@ + s@,
            InnerError::InfoClient(e) => "Info Client: "@ + e.message_spec(),
        }
    }

    /// The human-readable description of the failure.
    pub fn message(&self) -> (r: String)
        ensures
            r@ == self.message_spec(),
    {
        match self {
            InnerError::Archive(s) => joined("An error occurred while creating archive: ", s.as_str()),
            InnerError::InfoClient(e) => {
                let m = e.message();
                joined("Info Client: ", m.as_str())
            },
        }
    }
}

/// A failure that originated with the agent.
#[derive(Debug)]
pub struct AgentError(InnerError);

impl AgentError {
    pub fn new(inner: InnerError) -> (r: AgentError)
        ensures
            r.inner() == inner,
    {
        AgentError(inner)
    }

    pub closed spec fn inner(self) -> InnerError {
        self.0
    }

    /// The human-readable description of the failure.
    pub fn message(&self) -> (r: String)
        ensures
            r@ == self.inner().message_spec(),
    {
        self.0.message()
    }

    pub fn kind(&self) -> (r: &InnerError)
        ensures
            *r == self.inner(),
    {
        &self.0
    }
}

/// A failure of the test agent: failures of the client and of the runner
/// pass through with their own types.
#[derive(Debug)]
pub enum Error<C, R> {
    Agent(AgentError),
    Client(C),
    Runner(R),
}

impl<C, R> Error<C, R> {
    /// Wraps a failure of the agent.
    pub fn from_inner(e: InnerError) -> (r: Error<C, R>)
        ensures
            r is Agent,
            r->Agent_0.inner() == e,
    {
        Error::Agent(AgentError::new(e))
    }
}

} // verus!
