//! The control channel's framing and naming, and the bytes sent to a freshly
//! opened terminal.
use vstd::prelude::*;
use vstd::string::*;

verus! {

/// The most bytes one read of a command frame takes.
pub const FRAME_CAP: usize = 1024;

/// The frame in the first `n` bytes of a read buffer. A read of zero bytes
/// holds no frame: the peer closed without sending anything.
pub fn take_frame(buf: &[u8], n: usize) -> (r: Option<Vec<u8>>)
    requires
        n <= buf@.len(),
    ensures
        n == 0 <==> r is None,
        r matches Some(f) ==> f@ == buf@.subrange(0, n as int),
{
    if n == 0 {
        return None;
    }
    let mut frame: Vec<u8> = Vec::with_capacity(n);
    let mut i: usize = 0;
    while i < n
        invariant
            n <= buf@.len(),
            i <= n,
            frame@ == buf@.subrange(0, i as int),
        decreases n - i,
    {
        frame.push(buf[i]);
        i = i + 1;
        proof {
            assert(frame@ =~= buf@.subrange(0, i as int));
        }
    }
    Some(frame)
}

/// The prefix of every named pipe's path.
pub open spec fn pipe_prefix() -> Seq<char> {
    "\\\\.\\pipe\\"@
}

/// The path of the named pipe called `name`.
pub fn format_pipe_name(name: &str) -> (r: String)
    ensures
        r@ == pipe_prefix() + name@,
{
    let mut path = String::from_str("\\\\.\\pipe\\");
    path.append(name);
    path
}

/// The control sequence that clears a terminal: ESC followed by `c`.
pub fn clear_screen_sequence() -> (r: Vec<u8>)
    ensures
        r@ == seq![0x1bu8, 0x63u8],
{
    let mut v: Vec<u8> = Vec::new();
    v.push(0x1bu8);
    v.push(0x63u8);
    v
}

} // verus!
