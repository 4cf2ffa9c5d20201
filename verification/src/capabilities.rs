//! What the two sides of a session can do: the flags a client negotiates
//! with `initialize`, and the capabilities this adapter advertises in return.

use vstd::prelude::*;

verus! {

/// The arguments of an `initialize` request: negotiation flags, each of which
/// the client may leave out.
#[allow(non_snake_case)]
#[derive(Clone, Copy, Debug, PartialEq, Eq, Structural)]
pub struct InitializeRequestArguments {
    /// Lines are numbered from 1 rather than from 0.
    pub linesStartAt1: Option<bool>,
    /// Columns are numbered from 1 rather than from 0.
    pub columnsStartAt1: Option<bool>,
    /// The client shows the `type` attribute of variables.
    pub supportsVariableType: Option<bool>,
    /// The client pages through the children of large variables.
    pub supportsVariablePaging: Option<bool>,
    /// The client can run a command in its terminal on request.
    pub supportsRunInTerminalRequest: Option<bool>,
    /// The client understands memory references.
    pub supportsMemoryReferences: Option<bool>,
}

/// The client's capabilities as the session remembers them, with every flag
/// the client left out replaced by its default.
#[derive(Clone, Copy, Debug, PartialEq, Eq, Structural)]
pub struct ClientCaps {
    pub lines_start_at_1: bool,
    pub columns_start_at_1: bool,
    pub variable_type: bool,
    pub variable_paging: bool,
    pub run_in_terminal: bool,
    pub memory_references: bool,
}

/// What a flag counts as when the client did not send it.
pub open spec fn flag_or(flag: Option<bool>, default: bool) -> bool {
    match flag {
        Some(value) => value,
        None => default,
    }
}

impl ClientCaps {
    /// The capabilities that `params` negotiate: line and column numbering
    /// default to starting at 1, every `supports...` flag defaults to off.
    pub open spec fn negotiated(params: InitializeRequestArguments) -> ClientCaps {
        ClientCaps {
            lines_start_at_1: flag_or(params.linesStartAt1, true),
            columns_start_at_1: flag_or(params.columnsStartAt1, true),
            variable_type: flag_or(params.supportsVariableType, false),
            variable_paging: flag_or(params.supportsVariablePaging, false),
            run_in_terminal: flag_or(params.supportsRunInTerminalRequest, false),
            memory_references: flag_or(params.supportsMemoryReferences, false),
        }
    }

    /// The capabilities of a session before any `initialize`: all off.
    pub open spec fn blank() -> ClientCaps {
        ClientCaps {
            lines_start_at_1: false,
            columns_start_at_1: false,
            variable_type: false,
            variable_paging: false,
            run_in_terminal: false,
            memory_references: false,
        }
    }

    /// Reads the client's capabilities out of the arguments of `initialize`.
    pub fn parse(params: &InitializeRequestArguments) -> (caps: ClientCaps)
        ensures
            caps == ClientCaps::negotiated(*params),
    {
        ClientCaps {
            lines_start_at_1: params.linesStartAt1.unwrap_or(true),
            columns_start_at_1: params.columnsStartAt1.unwrap_or(true),
            variable_type: params.supportsVariableType.unwrap_or(false),
            variable_paging: params.supportsVariablePaging.unwrap_or(false),
            run_in_terminal: params.supportsRunInTerminalRequest.unwrap_or(false),
            memory_references: params.supportsMemoryReferences.unwrap_or(false),
        }
    }
}

impl Default for ClientCaps {
    fn default() -> (caps: ClientCaps)
        ensures
            caps == ClientCaps::blank(),
    {
        ClientCaps {
            lines_start_at_1: false,
            columns_start_at_1: false,
            variable_type: false,
            variable_paging: false,
            run_in_terminal: false,
            memory_references: false,
        }
    }
}

/// The capabilities an adapter advertises in its answer to `initialize`.
///
/// Of the capabilities the protocol knows, this adapter speaks of one; a
/// capability that is `None` is left out of the answer, which the protocol
/// reads as "not supported".
#[allow(non_snake_case)]
#[derive(Clone, Copy, Debug, PartialEq, Eq, Structural)]
pub struct Capabilities {
    /// `disconnect` honours its `terminateDebuggee` argument.
    pub supportTerminateDebuggee: Option<bool>,
}

impl Capabilities {
    /// What this adapter advertises, whatever the client negotiated.
    pub open spec fn advertised() -> Capabilities {
        Capabilities { supportTerminateDebuggee: Some(true) }
    }
}

impl Default for Capabilities {
    fn default() -> (capabilities: Capabilities)
        ensures
            capabilities == (Capabilities { supportTerminateDebuggee: None }),
    {
        Capabilities { supportTerminateDebuggee: None }
    }
}

} // verus!
