//! The table of commands: which handler a command's name stands for, and
//! the shape in which that handler takes the request's arguments.
//!
//! Three commands are implemented. A request with any other command is
//! refused by name, whatever its arguments are. The arguments of a known
//! command must be a JSON object; a member that may be left out counts as
//! left out when it is `null`, and a member of the wrong type is refused by
//! its name.

use crate::capabilities::InitializeRequestArguments;
use crate::json::{flag_of, get_member, holds_null, member, object_of, text_of};
use crate::messages::{CommandError, CommandErrorView};
use crate::requests::{
    Call, CallView, DisconnectArguments, LaunchRequestArguments, LaunchRequestArgumentsVsc,
    LaunchView,
};
use vstd::prelude::*;
use vstd::string::*;

verus! {

/// The name of the command that opens a session.
pub open spec fn initialize_command() -> Seq<char> {
    "initialize"@
}

/// The name of the command that starts the debuggee.
pub open spec fn launch_command() -> Seq<char> {
    "launch"@
}

/// The name of the command that ends debugging.
pub open spec fn disconnect_command() -> Seq<char> {
    "disconnect"@
}

/// Whether a handler is registered under `command`.
pub open spec fn is_known_command(command: Seq<char>) -> bool {
    command == initialize_command() || command == launch_command() || command
        == disconnect_command()
}

/// A plain value or the reason there is none, as contracts see it.
pub open spec fn refusal_view<T>(read: Result<T, CommandError>) -> Result<T, CommandErrorView> {
    match read {
        Ok(value) => Ok(value),
        Err(error) => Err(error@),
    }
}

/// A value or the reason there is none, as contracts see it.
pub open spec fn read_view<T: View>(read: Result<T, CommandError>) -> Result<
    T::V,
    CommandErrorView,
> {
    match read {
        Ok(value) => Ok(value@),
        Err(error) => Err(error@),
    }
}

/// The flag under `name` in `arguments`, for a member that may be left out:
/// none where the member is missing or `null`.
pub open spec fn optional_flag_of(arguments: serde_json::Value, name: Seq<char>) -> Result<
    Option<bool>,
    CommandErrorView,
> {
    match member(arguments, name) {
        None => Ok(None),
        Some(value) => if holds_null(value) {
            Ok(None)
        } else {
            match flag_of(value) {
                Some(flag) => Ok(Some(flag)),
                None => Err(CommandErrorView::InvalidArgument { name }),
            }
        },
    }
}

/// The string under `name` in `arguments`, for a member that must be there.
pub open spec fn required_text_of(arguments: serde_json::Value, name: Seq<char>) -> Result<
    Seq<char>,
    CommandErrorView,
> {
    match member(arguments, name) {
        None => Err(CommandErrorView::InvalidArgument { name }),
        Some(value) => match text_of(value) {
            Some(text) => Ok(text),
            None => Err(CommandErrorView::InvalidArgument { name }),
        },
    }
}

/// The arguments of `initialize` that the object `arguments` holds. The
/// first flag that is there and is no truth value is refused.
pub open spec fn initialize_arguments_of(arguments: serde_json::Value) -> Result<
    InitializeRequestArguments,
    CommandErrorView,
> {
    let lines = optional_flag_of(arguments, "linesStartAt1"@);
    let columns = optional_flag_of(arguments, "columnsStartAt1"@);
    let variable_type = optional_flag_of(arguments, "supportsVariableType"@);
    let variable_paging = optional_flag_of(arguments, "supportsVariablePaging"@);
    let run_in_terminal = optional_flag_of(arguments, "supportsRunInTerminalRequest"@);
    let memory_references = optional_flag_of(arguments, "supportsMemoryReferences"@);
    if lines is Err {
        Err(lines->Err_0)
    } else if columns is Err {
        Err(columns->Err_0)
    } else if variable_type is Err {
        Err(variable_type->Err_0)
    } else if variable_paging is Err {
        Err(variable_paging->Err_0)
    } else if run_in_terminal is Err {
        Err(run_in_terminal->Err_0)
    } else if memory_references is Err {
        Err(memory_references->Err_0)
    } else {
        Ok(
            InitializeRequestArguments {
                linesStartAt1: lines->Ok_0,
                columnsStartAt1: columns->Ok_0,
                supportsVariableType: variable_type->Ok_0,
                supportsVariablePaging: variable_paging->Ok_0,
                supportsRunInTerminalRequest: run_in_terminal->Ok_0,
                supportsMemoryReferences: memory_references->Ok_0,
            },
        )
    }
}

/// The arguments of `launch` that the object `arguments` holds: `noDebug`
/// may be left out, `dmb` must be a string.
pub open spec fn launch_arguments_of(arguments: serde_json::Value) -> Result<
    LaunchView,
    CommandErrorView,
> {
    match optional_flag_of(arguments, "noDebug"@) {
        Err(error) => Err(error),
        Ok(no_debug) => match required_text_of(arguments, "dmb"@) {
            Err(error) => Err(error),
            Ok(dmb) => Ok(LaunchView { base: LaunchRequestArguments { noDebug: no_debug }, dmb }),
        },
    }
}

/// The arguments of `disconnect` that the object `arguments` holds.
pub open spec fn disconnect_arguments_of(arguments: serde_json::Value) -> Result<
    DisconnectArguments,
    CommandErrorView,
> {
    match optional_flag_of(arguments, "terminateDebuggee"@) {
        Err(error) => Err(error),
        Ok(terminate) => Ok(DisconnectArguments { terminateDebuggee: terminate }),
    }
}

/// The arguments of a request as the object that a handler reads: they must
/// be there, and be a JSON object.
pub open spec fn arguments_object_of(arguments: Option<serde_json::Value>) -> Result<
    serde_json::Value,
    CommandErrorView,
> {
    match arguments {
        Some(value) => if object_of(value).is_some() {
            Ok(value)
        } else {
            Err(CommandErrorView::ArgumentsNotObject)
        },
        None => Err(CommandErrorView::ArgumentsNotObject),
    }
}

/// The call that a request with `command` and `arguments` amounts to. The
/// command is looked up first: an unknown one is refused whatever the
/// arguments are. The arguments are then read as that command takes them.
pub open spec fn call_of(command: Seq<char>, arguments: Option<serde_json::Value>) -> Result<
    CallView,
    CommandErrorView,
> {
    if !is_known_command(command) {
        Err(CommandErrorView::UnknownCommand { command })
    } else {
        match arguments_object_of(arguments) {
            Err(error) => Err(error),
            Ok(object) => if command == initialize_command() {
                match initialize_arguments_of(object) {
                    Ok(arguments) => Ok(CallView::Initialize(arguments)),
                    Err(error) => Err(error),
                }
            } else if command == launch_command() {
                match launch_arguments_of(object) {
                    Ok(arguments) => Ok(CallView::Launch(arguments)),
                    Err(error) => Err(error),
                }
            } else {
                match disconnect_arguments_of(object) {
                    Ok(arguments) => Ok(CallView::Disconnect(arguments)),
                    Err(error) => Err(error),
                }
            },
        }
    }
}

/// Reads a flag that may be left out.
pub fn optional_flag(arguments: &serde_json::Value, name: &str) -> (flag: Result<
    Option<bool>,
    CommandError,
>)
    ensures
        refusal_view(flag) == optional_flag_of(*arguments, name@),
{
    match get_member(arguments, name) {
        None => Ok(None),
        Some(value) => if value.is_null() {
            Ok(None)
        } else {
            match value.as_bool() {
                Some(flag) => Ok(Some(flag)),
                None => Err(CommandError::InvalidArgument { name: name.to_owned() }),
            }
        },
    }
}

/// Reads a string that must be there.
pub fn required_text(arguments: &serde_json::Value, name: &str) -> (text: Result<
    String,
    CommandError,
>)
    ensures
        read_view(text) == required_text_of(*arguments, name@),
{
    match get_member(arguments, name) {
        None => Err(CommandError::InvalidArgument { name: name.to_owned() }),
        Some(value) => match value.as_str() {
            Some(text) => Ok(text.to_owned()),
            None => Err(CommandError::InvalidArgument { name: name.to_owned() }),
        },
    }
}

/// Reads the arguments of `initialize` out of a JSON object.
pub fn decode_initialize_arguments(arguments: &serde_json::Value) -> (decoded: Result<
    InitializeRequestArguments,
    CommandError,
>)
    ensures
        refusal_view(decoded) == initialize_arguments_of(*arguments),
{
    let lines = match optional_flag(arguments, "linesStartAt1") {
        Ok(flag) => flag,
        Err(error) => { return Err(error); },
    };
    let columns = match optional_flag(arguments, "columnsStartAt1") {
        Ok(flag) => flag,
        Err(error) => { return Err(error); },
    };
    let variable_type = match optional_flag(arguments, "supportsVariableType") {
        Ok(flag) => flag,
        Err(error) => { return Err(error); },
    };
    let variable_paging = match optional_flag(arguments, "supportsVariablePaging") {
        Ok(flag) => flag,
        Err(error) => { return Err(error); },
    };
    let run_in_terminal = match optional_flag(arguments, "supportsRunInTerminalRequest") {
        Ok(flag) => flag,
        Err(error) => { return Err(error); },
    };
    let memory_references = match optional_flag(arguments, "supportsMemoryReferences") {
        Ok(flag) => flag,
        Err(error) => { return Err(error); },
    };
    Ok(
        InitializeRequestArguments {
            linesStartAt1: lines,
            columnsStartAt1: columns,
            supportsVariableType: variable_type,
            supportsVariablePaging: variable_paging,
            supportsRunInTerminalRequest: run_in_terminal,
            supportsMemoryReferences: memory_references,
        },
    )
}

/// Reads the arguments of `launch` out of a JSON object.
pub fn decode_launch_arguments(arguments: &serde_json::Value) -> (decoded: Result<
    LaunchRequestArgumentsVsc,
    CommandError,
>)
    ensures
        read_view(decoded) == launch_arguments_of(*arguments),
{
    let no_debug = match optional_flag(arguments, "noDebug") {
        Ok(flag) => flag,
        Err(error) => { return Err(error); },
    };
    let dmb = match required_text(arguments, "dmb") {
        Ok(text) => text,
        Err(error) => { return Err(error); },
    };
    Ok(LaunchRequestArgumentsVsc { base: LaunchRequestArguments { noDebug: no_debug }, dmb })
}

/// Reads the arguments of `disconnect` out of a JSON object.
pub fn decode_disconnect_arguments(arguments: &serde_json::Value) -> (decoded: Result<
    DisconnectArguments,
    CommandError,
>)
    ensures
        refusal_view(decoded) == disconnect_arguments_of(*arguments),
{
    match optional_flag(arguments, "terminateDebuggee") {
        Ok(terminate) => Ok(DisconnectArguments { terminateDebuggee: terminate }),
        Err(error) => Err(error),
    }
}

/// Looks `command` up and reads `arguments` as its handler takes them.
pub fn decode_call(command: &str, arguments: Option<&serde_json::Value>) -> (call: Result<
    Call,
    CommandError,
>)
    ensures
        read_view(call) == call_of(
            command@,
            match arguments {
                Some(value) => Some(*value),
                None => None,
            },
        ),
{
    let name = command.to_owned();
    let initialize = name == String::from_str("initialize");
    let launch = name == String::from_str("launch");
    let disconnect = name == String::from_str("disconnect");
    if !initialize && !launch && !disconnect {
        return Err(CommandError::UnknownCommand { command: name });
    }
    let object = match arguments {
        Some(value) => if value.is_object() {
            value
        } else {
            return Err(CommandError::ArgumentsNotObject);
        },
        None => { return Err(CommandError::ArgumentsNotObject); },
    };
    if initialize {
        match decode_initialize_arguments(object) {
            Ok(arguments) => Ok(Call::Initialize(arguments)),
            Err(error) => Err(error),
        }
    } else if launch {
        match decode_launch_arguments(object) {
            Ok(arguments) => Ok(Call::Launch(arguments)),
            Err(error) => Err(error),
        }
    } else {
        match decode_disconnect_arguments(object) {
            Ok(arguments) => Ok(Call::Disconnect(arguments)),
            Err(error) => Err(error),
        }
    }
}

} // verus!
