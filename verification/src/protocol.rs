use vstd::prelude::*;

verus! {

/// The requests a coordinator serves, in the order that fixes their wire
/// codes.
#[derive(Clone, Copy, Debug, PartialEq, Eq, Structural)]
pub enum ClusterAction {
    CalculateFib,
    InsertNode,
}

/// The one request a worker node serves.
#[derive(Clone, Copy, Debug, PartialEq, Eq, Structural)]
pub enum NodeAction {
    Fibonacci,
}

/// The requests the file-drop service serves, in the order that fixes their
/// wire codes.
#[derive(Clone, Copy, Debug, PartialEq, Eq, Structural)]
pub enum CrocAction {
    GetFile,
    SendFile,
}

/// A request code that names no request; `value` is the byte received.
#[derive(Clone, Copy, Debug, PartialEq, Eq, Structural)]
pub struct InvalidAction {
    pub value: u8,
}

/// The byte that stands for a coordinator request on the wire.
pub open spec fn cluster_action_code(action: ClusterAction) -> u8 {
    match action {
        ClusterAction::CalculateFib => 0,
        ClusterAction::InsertNode => 1,
    }
}

/// What a received byte means as a coordinator request.
pub open spec fn decode_cluster_action(byte: u8) -> Result<ClusterAction, InvalidAction> {
    if byte == 0 {
        Ok(ClusterAction::CalculateFib)
    } else if byte == 1 {
        Ok(ClusterAction::InsertNode)
    } else {
        Err(InvalidAction { value: byte })
    }
}

/// The byte that stands for a worker request on the wire.
pub open spec fn node_action_code(action: NodeAction) -> u8 {
    match action {
        NodeAction::Fibonacci => 0,
    }
}

/// What a received byte means as a worker request.
pub open spec fn decode_node_action(byte: u8) -> Result<NodeAction, InvalidAction> {
    if byte == 0 {
        Ok(NodeAction::Fibonacci)
    } else {
        Err(InvalidAction { value: byte })
    }
}

/// The byte that stands for a file-drop request on the wire.
pub open spec fn croc_action_code(action: CrocAction) -> u8 {
    match action {
        CrocAction::GetFile => 0,
        CrocAction::SendFile => 1,
    }
}

/// What a received byte means as a file-drop request.
pub open spec fn decode_croc_action(byte: u8) -> Result<CrocAction, InvalidAction> {
    if byte == 0 {
        Ok(CrocAction::GetFile)
    } else if byte == 1 {
        Ok(CrocAction::SendFile)
    } else {
        Err(InvalidAction { value: byte })
    }
}

impl ClusterAction {
    /// Encodes the request as its wire byte.
    pub fn to_byte(&self) -> (byte: u8)
        ensures
            byte == cluster_action_code(*self),
    {
        match self {
            ClusterAction::CalculateFib => 0,
            ClusterAction::InsertNode => 1,
        }
    }

    /// Decodes a received wire byte; any byte but the two codes is refused.
    pub fn from_byte(byte: u8) -> (action: Result<ClusterAction, InvalidAction>)
        ensures
            action == decode_cluster_action(byte),
    {
        if byte == 0 {
            Ok(ClusterAction::CalculateFib)
        } else if byte == 1 {
            Ok(ClusterAction::InsertNode)
        } else {
            Err(InvalidAction { value: byte })
        }
    }
}

impl NodeAction {
    /// Encodes the request as its wire byte.
    pub fn to_byte(&self) -> (byte: u8)
        ensures
            byte == node_action_code(*self),
    {
        match self {
            NodeAction::Fibonacci => 0,
        }
    }

    /// Decodes a received wire byte; any byte but the one code is refused.
    pub fn from_byte(byte: u8) -> (action: Result<NodeAction, InvalidAction>)
        ensures
            action == decode_node_action(byte),
    {
        if byte == 0 {
            Ok(NodeAction::Fibonacci)
        } else {
            Err(InvalidAction { value: byte })
        }
    }
}

impl CrocAction {
    /// Encodes the request as its wire byte.
    pub fn to_byte(&self) -> (byte: u8)
        ensures
            byte == croc_action_code(*self),
    {
        match self {
            CrocAction::GetFile => 0,
            CrocAction::SendFile => 1,
        }
    }

    /// Decodes a received wire byte; any byte but the two codes is refused.
    pub fn from_byte(byte: u8) -> (action: Result<CrocAction, InvalidAction>)
        ensures
            action == decode_croc_action(byte),
    {
        if byte == 0 {
            Ok(CrocAction::GetFile)
        } else if byte == 1 {
            Ok(CrocAction::SendFile)
        } else {
            Err(InvalidAction { value: byte })
        }
    }
}

/// Every request survives the trip over the wire, and a byte decodes to a
/// request exactly when it is the code of one; two requests never share a
/// code.
pub proof fn lemma_cluster_action_codec(action: ClusterAction, other: ClusterAction, byte: u8)
    ensures
        decode_cluster_action(cluster_action_code(action)) == Ok::<ClusterAction, InvalidAction>(action),
        decode_cluster_action(byte) is Ok <==> byte < 2,
        decode_cluster_action(byte) matches Ok(a) ==> cluster_action_code(a) == byte,
        cluster_action_code(action) == cluster_action_code(other) ==> action == other,
{
}

/// The same for the file-drop service's requests.
pub proof fn lemma_croc_action_codec(action: CrocAction, other: CrocAction, byte: u8)
    ensures
        decode_croc_action(croc_action_code(action)) == Ok::<CrocAction, InvalidAction>(action),
        decode_croc_action(byte) is Ok <==> byte < 2,
        decode_croc_action(byte) matches Ok(a) ==> croc_action_code(a) == byte,
        croc_action_code(action) == croc_action_code(other) ==> action == other,
{
}

/// The same for the worker's requests.
pub proof fn lemma_node_action_codec(action: NodeAction, byte: u8)
    ensures
        decode_node_action(node_action_code(action)) == Ok::<NodeAction, InvalidAction>(action),
        decode_node_action(byte) is Ok <==> byte == 0,
        decode_node_action(byte) matches Ok(a) ==> node_action_code(a) == byte,
{
}

} // verus!
