//! Configuration actions that a context replays onto the device, in order.
use crate::common::HailoError;
use vstd::prelude::*;

verus! {

/// The kind of a configuration action.
#[derive(Clone, Copy, Debug, PartialEq, Eq, Structural)]
pub enum ContextSwitchActionType {
    NoOp,
    ActivateConfigChannel,
    DeactivateConfigChannel,
    WriteDataCcw,
}

/// A configuration action with its parameters.
#[derive(Clone, Copy, Debug, PartialEq, Eq, Structural)]
pub enum ContextSwitchConfigAction {
    NoOp,
    ActivateConfigChannel { config_stream_index: u8, channel_index: u8 },
    DeactivateConfigChannel { config_stream_index: u8, channel_index: u8 },
    WriteDataCcw { config_stream_index: u8, total_ccw_bursts: u16 },
}

/// The kind of an action.
pub open spec fn action_type(a: ContextSwitchConfigAction) -> ContextSwitchActionType {
    match a {
        ContextSwitchConfigAction::NoOp => ContextSwitchActionType::NoOp,
        ContextSwitchConfigAction::ActivateConfigChannel { .. } => ContextSwitchActionType::ActivateConfigChannel,
        ContextSwitchConfigAction::DeactivateConfigChannel { .. } => ContextSwitchActionType::DeactivateConfigChannel,
        ContextSwitchConfigAction::WriteDataCcw { .. } => ContextSwitchActionType::WriteDataCcw,
    }
}

/// The wire form of an action: nothing for `NoOp`; else a kind byte (1, 2,
/// 3 in the order of the kinds) followed by the parameters, little-endian.
pub open spec fn action_bytes(a: ContextSwitchConfigAction) -> Seq<u8> {
    match a {
        ContextSwitchConfigAction::NoOp => seq![],
        ContextSwitchConfigAction::ActivateConfigChannel { config_stream_index, channel_index } => seq![
            1u8,
            config_stream_index,
            channel_index,
        ],
        ContextSwitchConfigAction::DeactivateConfigChannel { config_stream_index, channel_index } => seq![
            2u8,
            config_stream_index,
            channel_index,
        ],
        ContextSwitchConfigAction::WriteDataCcw { config_stream_index, total_ccw_bursts } => seq![
            3u8,
            config_stream_index,
            (total_ccw_bursts % 0x100) as u8,
            (total_ccw_bursts / 0x100) as u8,
        ],
    }
}

impl ContextSwitchConfigAction {
    /// The kind of the action.
    pub fn get_type(&self) -> (r: ContextSwitchActionType)
        ensures
            r == action_type(*self),
    {
        match self {
            ContextSwitchConfigAction::NoOp => ContextSwitchActionType::NoOp,
            ContextSwitchConfigAction::ActivateConfigChannel { .. } => ContextSwitchActionType::ActivateConfigChannel,
            ContextSwitchConfigAction::DeactivateConfigChannel { .. } => ContextSwitchActionType::DeactivateConfigChannel,
            ContextSwitchConfigAction::WriteDataCcw { .. } => ContextSwitchActionType::WriteDataCcw,
        }
    }

    /// Whether the action may be folded into a repeated hardware block;
    /// none of these kinds may.
    pub fn supports_repeated_block(&self) -> (r: bool)
        ensures
            !r,
    {
        false
    }

    /// The bytes that the control protocol takes for the action.
    pub fn serialize(&self) -> (r: Result<Vec<u8>, HailoError>)
        ensures
            r is Ok,
            r->Ok_0@ == action_bytes(*self),
    {
        let mut out: Vec<u8> = Vec::new();
        match self {
            ContextSwitchConfigAction::NoOp => {},
            ContextSwitchConfigAction::ActivateConfigChannel { config_stream_index, channel_index } => {
                out.push(1);
                out.push(*config_stream_index);
                out.push(*channel_index);
            },
            ContextSwitchConfigAction::DeactivateConfigChannel { config_stream_index, channel_index } => {
                out.push(2);
                out.push(*config_stream_index);
                out.push(*channel_index);
            },
            ContextSwitchConfigAction::WriteDataCcw { config_stream_index, total_ccw_bursts } => {
                out.push(3);
                out.push(*config_stream_index);
                out.push((*total_ccw_bursts % 0x100) as u8);
                out.push((*total_ccw_bursts / 0x100) as u8);
            },
        }
        assert(out@ =~= action_bytes(*self));
        Ok(out)
    }
}

/// The action that does nothing.
#[derive(Clone, Copy, Debug, PartialEq, Eq, Structural)]
pub struct NoneAction;

impl NoneAction {
    /// Its kind, `NoOp`.
    pub fn get_type(&self) -> (r: ContextSwitchActionType)
        ensures
            r == ContextSwitchActionType::NoOp,
    {
        ContextSwitchActionType::NoOp
    }

    /// It is never folded into a repeated block.
    pub fn supports_repeated_block(&self) -> (r: bool)
        ensures
            !r,
    {
        false
    }

    /// It has no bytes.
    pub fn serialize(&self) -> (r: Result<Vec<u8>, HailoError>)
        ensures
            r is Ok,
            r->Ok_0@.len() == 0,
    {
        Ok(Vec::new())
    }

    /// The same action as a member of the action set.
    pub fn to_action(&self) -> (r: ContextSwitchConfigAction)
        ensures
            r == ContextSwitchConfigAction::NoOp,
    {
        ContextSwitchConfigAction::NoOp
    }
}

} // verus!
