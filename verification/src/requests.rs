//! The requests an adapter answers: the arguments of each command, and the
//! call that a request amounts to once its command has been looked up and
//! its arguments have been read.

use crate::capabilities::InitializeRequestArguments;
use vstd::prelude::*;

verus! {

/// The arguments that every `launch` request may carry.
#[allow(non_snake_case)]
#[derive(Clone, Copy, Debug, PartialEq, Eq, Structural)]
pub struct LaunchRequestArguments {
    /// Launch without debugging. Accepted; nothing depends on it.
    pub noDebug: Option<bool>,
}

/// The arguments of `launch` as the editor's extension sends them: the
/// protocol's own, and the file that the debuggee is to run.
#[derive(Debug, PartialEq, Eq)]
pub struct LaunchRequestArgumentsVsc {
    pub base: LaunchRequestArguments,
    /// The path that is handed to the debuggee as its first argument.
    pub dmb: String,
}

/// What contracts say of a [`LaunchRequestArgumentsVsc`].
pub struct LaunchView {
    pub base: LaunchRequestArguments,
    pub dmb: Seq<char>,
}

impl View for LaunchRequestArgumentsVsc {
    type V = LaunchView;

    open spec fn view(&self) -> LaunchView {
        LaunchView { base: self.base, dmb: self.dmb@ }
    }
}

/// The arguments of a `disconnect` request.
#[allow(non_snake_case)]
#[derive(Clone, Copy, Debug, PartialEq, Eq, Structural)]
pub struct DisconnectArguments {
    /// Whether the debuggee is to be killed. Left out, it counts as `true`.
    pub terminateDebuggee: Option<bool>,
}

impl DisconnectArguments {
    /// Whether these arguments ask for the debuggee to be killed.
    pub open spec fn spec_terminate(self) -> bool {
        match self.terminateDebuggee {
            Some(terminate) => terminate,
            None => true,
        }
    }

    /// Whether these arguments ask for the debuggee to be killed.
    pub fn terminate(&self) -> (terminate: bool)
        ensures
            terminate == self.spec_terminate(),
    {
        self.terminateDebuggee.unwrap_or(true)
    }
}

/// A request whose command is known and whose arguments have been read.
#[derive(Debug, PartialEq, Eq)]
pub enum Call {
    Initialize(InitializeRequestArguments),
    Launch(LaunchRequestArgumentsVsc),
    Disconnect(DisconnectArguments),
}

/// What contracts say of a [`Call`].
pub enum CallView {
    Initialize(InitializeRequestArguments),
    Launch(LaunchView),
    Disconnect(DisconnectArguments),
}

impl View for Call {
    type V = CallView;

    open spec fn view(&self) -> CallView {
        match self {
            Call::Initialize(arguments) => CallView::Initialize(*arguments),
            Call::Launch(arguments) => CallView::Launch(arguments@),
            Call::Disconnect(arguments) => CallView::Disconnect(*arguments),
        }
    }
}

} // verus!
