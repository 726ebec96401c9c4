//! The tools that the server offers, the commands they become, and what they answer.

use crate::channels::Reply;
use crate::ids::{is_random_uuid, random_id};
use vstd::prelude::*;

verus! {

/// Runs a Luau command.
#[derive(Debug, Clone, PartialEq, Eq)]
pub struct RunCode {
    pub command: String,
}

/// Inserts a model from the marketplace.
#[derive(Debug, Clone, PartialEq, Eq)]
pub struct InsertModel {
    pub query: String,
}

/// Reads the console output.
#[derive(Debug, Clone, PartialEq, Eq)]
pub struct GetConsoleOutput {}

/// Reads the current mode of Studio.
#[derive(Debug, Clone, PartialEq, Eq)]
pub struct GetStudioMode {}

/// Starts or stops play mode.
#[derive(Debug, Clone, PartialEq, Eq)]
pub struct StartStopPlay {
    pub mode: String,
}

/// Runs a script in play mode.
#[derive(Debug, Clone, PartialEq, Eq)]
pub struct RunScriptInPlayMode {
    pub code: String,
    pub timeout: Option<u32>,
    pub mode: String,
}

/// The arguments of a tool that runs inside Studio.
#[derive(Debug, Clone, PartialEq, Eq)]
pub enum ToolArgumentValues {
    RunCode(RunCode),
    InsertModel(InsertModel),
    GetConsoleOutput(GetConsoleOutput),
    StartStopPlay(StartStopPlay),
    RunScriptInPlayMode(RunScriptInPlayMode),
    GetStudioMode(GetStudioMode),
}

/// A command for Studio. The id is the 128-bit number of a UUID.
#[derive(Debug, Clone, PartialEq, Eq)]
pub struct ToolArguments {
    pub args: ToolArgumentValues,
    pub id: Option<u128>,
}

/// What Studio reports about a command.
#[derive(Debug, Clone, PartialEq, Eq)]
pub struct RunCommandResponse {
    pub success: bool,
    pub response: String,
    pub id: u128,
}

impl ToolArguments {
    /// A command with a fresh random id, and that id.
    pub fn new(args: ToolArgumentValues) -> (tagged: (Self, u128))
        ensures
            tagged.0 == (ToolArguments { args, id: Some(tagged.1) }),
            is_random_uuid(tagged.1),
    {
        ToolArguments { args, id: None }.with_id()
    }

    /// This command under a fresh random id, and that id.
    pub fn with_id(self) -> (tagged: (Self, u128))
        ensures
            tagged.0 == (ToolArguments { args: self.args, id: Some(tagged.1) }),
            is_random_uuid(tagged.1),
    {
        let id: u128 = random_id();
        (self.identified(id), id)
    }

    /// This command under the given id.
    pub fn identified(self, id: u128) -> (command: Self)
        ensures
            command == (ToolArguments { args: self.args, id: Some(id) }),
    {
        ToolArguments { args: self.args, id: Some(id) }
    }
}

impl RunCommandResponse {
    /// What the waiting caller is told: the output of a command that succeeded, or the text of
    /// its error.
    pub open spec fn reply(self) -> Reply {
        if self.success {
            Ok(self.response)
        } else {
            Err(self.response)
        }
    }

    /// The report on command `id` that a reply amounts to.
    pub open spec fn of_reply(id: u128, reply: Reply) -> RunCommandResponse {
        match reply {
            Ok(text) => RunCommandResponse { success: true, response: text, id },
            Err(text) => RunCommandResponse { success: false, response: text, id },
        }
    }

    /// Turns the report into the reply for the waiting caller.
    pub fn into_reply(self) -> (reply: Reply)
        ensures
            reply == self.reply(),
    {
        if self.success {
            Ok(self.response)
        } else {
            Err(self.response)
        }
    }

    /// Turns a reply back into a report on command `id`.
    pub fn from_reply(id: u128, reply: Reply) -> (report: Self)
        ensures
            report == Self::of_reply(id, reply),
    {
        match reply {
            Ok(text) => RunCommandResponse { success: true, response: text, id },
            Err(text) => RunCommandResponse { success: false, response: text, id },
        }
    }
}

} // verus!
