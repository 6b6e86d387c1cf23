use vstd::prelude::*;

verus! {

/// A socket.io message: its type number, namespace and data.
#[derive(Debug)]
pub struct SocketIOMessage {
    pub msg_type: i32,
    pub nsp: String,
    pub data: String,
}

} // verus!
