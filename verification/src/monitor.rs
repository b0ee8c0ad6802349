use vstd::prelude::*;

verus! {

/// The reply the console monitor channel chooses for a command. Rendering
/// the reply text and the transport around it stay outside; the choice must
/// never block the event loop and never does hardware work.
#[derive(Debug, Clone, Copy, PartialEq, Eq, Structural)]
pub enum MonitorReply {
    /// An empty command: answer with the usage hint.
    Hint,
    /// The liveness check: "ping" is answered with "pong".
    Pong,
    /// Anything else: answer that the command is not understood.
    Unknown,
}

/// The bytes of the one understood command, "ping", in ASCII.
pub open spec fn ping_bytes() -> Seq<u8> {
    seq![112u8, 105u8, 110u8, 103u8]
}

/// Choose the reply for a monitor command, by its raw bytes.
pub fn monitor_response(cmd: &[u8]) -> (r: MonitorReply)
    ensures
        r == MonitorReply::Hint <==> cmd@.len() == 0,
        r == MonitorReply::Pong <==> cmd@ == ping_bytes(),
        r == MonitorReply::Unknown <==> (cmd@.len() != 0 && cmd@ != ping_bytes()),
{
    if cmd.len() == 0 {
        MonitorReply::Hint
    } else if cmd.len() == 4 && cmd[0] == 112 && cmd[1] == 105 && cmd[2] == 110 && cmd[3] == 103 {
        proof {
            assert(cmd@ =~= ping_bytes());
        }
        MonitorReply::Pong
    } else {
        MonitorReply::Unknown
    }
}

} // verus!
