//! IPC bridge: the named byte-channel pair that gives local processes a
//! second ingress path into the same dispatch core.
//!
//! A channel is a named pipe under a fixed path prefix that segregates these
//! channels from other filesystem objects.  The reader endpoint owns the
//! pipe object's creation — it deletes any stale object at that name and
//! recreates it before the first read; a writer only opens an existing pipe
//! and never creates one.  Those filesystem steps, the blocking reads and
//! the atomic writes live with the embedding process; the naming and the
//! per-read delivery decision are verified here.

use vstd::prelude::*;

use vstd::string::StringExecFns;

verus! {

/// Size of the buffer each read of a channel fills.
pub const MAX_FIFO_BUFFER_SIZE: usize = 1024;

/// The filesystem path of the channel with the given name, under the fixed
/// prefix common to all these channels.
pub fn fifo_path_for(fifo_name: &str) -> (p: String)
    ensures
        p@ == "/tmp/fifo-"@ + fifo_name@,
{
    String::from_str("/tmp/fifo-").concat(fifo_name)
}

/// The reader endpoint of one named channel.  Binding it — removing a stale
/// pipe object and creating a fresh one at this path — is the embedding
/// process's step from `Unbound` to `Bound`.
pub struct IpcReader {
    fifo_path_str: String,
}

impl IpcReader {
    /// The path of the pipe object this reader owns.
    pub closed spec fn spec_path(self) -> Seq<char> {
        self.fifo_path_str@
    }

    pub fn new(fifo_name: &str) -> (r: IpcReader)
        ensures
            r.spec_path() == "/tmp/fifo-"@ + fifo_name@,
    {
        IpcReader { fifo_path_str: fifo_path_for(fifo_name) }
    }

    pub fn path(&self) -> (r: &str)
        ensures
            r@ == self.spec_path(),
    {
        self.fifo_path_str.as_str()
    }
}

/// The writer endpoint of one named channel.  It has no state beyond the
/// path: it attempts to open the existing pipe and fails if none is there.
pub struct IpcWriter {
    fifo_path_str: String,
}

impl IpcWriter {
    /// The path of the pipe object this writer targets.
    pub closed spec fn spec_path(self) -> Seq<char> {
        self.fifo_path_str@
    }

    pub fn new(fifo_name: &str) -> (r: IpcWriter)
        ensures
            r.spec_path() == "/tmp/fifo-"@ + fifo_name@,
    {
        IpcWriter { fifo_path_str: fifo_path_for(fifo_name) }
    }

    pub fn path(&self) -> (r: &str)
        ensures
            r@ == self.spec_path(),
    {
        self.fifo_path_str.as_str()
    }
}

/// What the reader loop does after one read of the channel.
pub enum ReaderAction {
    /// The read failed: the loop ends; the caller may re-bind.
    Stop,
    /// Nothing was read: the loop goes on without delivering.
    Continue,
    /// A non-empty read: deliver exactly these bytes to the data handler.
    Deliver(Vec<u8>),
}

/// The reader loop's decision for one read that returned `n` bytes into
/// `buffer` (or failed): a read error stops the loop, an empty read delivers
/// nothing, and a non-empty read delivers exactly the bytes received, once.
pub fn reader_step(read_ok: bool, buffer: &Vec<u8>, n: usize) -> (r: ReaderAction)
    requires
        n <= buffer@.len(),
    ensures
        !read_ok ==> r is Stop,
        read_ok && n == 0 ==> r is Continue,
        read_ok && n > 0 ==> (r matches ReaderAction::Deliver(d) && d@ == buffer@.subrange(
            0,
            n as int,
        )),
{
    if !read_ok {
        ReaderAction::Stop
    } else if n == 0 {
        ReaderAction::Continue
    } else {
        let mut out: Vec<u8> = Vec::new();
        let mut i: usize = 0;
        while i < n
            invariant
                i <= n,
                n <= buffer@.len(),
                out@ =~= buffer@.subrange(0, i as int),
            decreases n - i,
        {
            out.push(buffer[i]);
            i += 1;
        }
        proof {
            assert(out@ =~= buffer@.subrange(0, n as int));
        }
        ReaderAction::Deliver(out)
    }
}

} // verus!
