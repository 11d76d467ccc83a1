use vstd::prelude::*;

verus! {

/// The value a graphics backend reports for a successful compile or link.
pub const GL_TRUE: i32 = 1;

/// Bytes reserved for a diagnostic log read back from the backend.
pub const LOG_CAPACITY: usize = 1024;

/// The step of a program build that a status belongs to.
#[derive(Clone, Copy, Debug, PartialEq, Eq, Structural)]
pub enum ShaderStage {
    Vertex,
    Fragment,
    Link,
}

/// A failed compile or link, with the backend's diagnostic log.
#[derive(Debug)]
pub struct ShaderError {
    pub stage: ShaderStage,
    pub log: Vec<u8>,
}

/// Whether a byte sequence holds a nul byte.
pub open spec fn has_nul(s: Seq<u8>) -> bool {
    exists|i: int| 0 <= i < s.len() && s[i] == 0
}

/// How many bytes of a log buffer of length `cap` hold text, when the backend
/// reports `written` bytes: the report, kept within the buffer.
pub open spec fn log_len(cap: nat, written: int) -> nat {
    if written <= 0 {
        0
    } else if written >= cap {
        cap
    } else {
        written as nat
    }
}

/// The text of a diagnostic log: the reported prefix of the buffer.
pub open spec fn log_text(buffer: Seq<u8>, written: int) -> Seq<u8> {
    buffer.subrange(0, log_len(buffer.len(), written) as int)
}

/// Whether a compile or link status reports success.
pub fn status_ok(status: i32) -> (r: bool)
    ensures
        r == (status == GL_TRUE),
{
    status == GL_TRUE
}

/// The shader text as the backend takes it: the bytes followed by one nul.
/// Text that already holds a nul cannot be passed whole and is refused.
pub fn c_source(src: &[u8]) -> (r: Option<Vec<u8>>)
    ensures
        r is None <==> has_nul(src@),
        r matches Some(v) ==> v@ == src@.push(0),
{
    let mut out: Vec<u8> = Vec::new();
    let mut i: usize = 0;
    while i < src.len()
        invariant
            i <= src@.len(),
            out@ == src@.subrange(0, i as int),
            forall|j: int| 0 <= j < i ==> src@[j] != 0,
        decreases src@.len() - i,
    {
        if src[i] == 0 {
            return None;
        }
        out.push(src[i]);
        i = i + 1;
    }
    out.push(0);
    assert(src@.subrange(0, src@.len() as int) =~= src@);
    Some(out)
}

/// The diagnostic text in a log buffer of which the backend reports having
/// written `written` bytes. A report outside the buffer is kept within it.
pub fn info_log(buffer: &[u8], written: i32) -> (r: Vec<u8>)
    ensures
        r@ == log_text(buffer@, written as int),
{
    let n: usize = if written <= 0 {
        0
    } else if written as usize >= buffer.len() {
        buffer.len()
    } else {
        written as usize
    };
    let mut out: Vec<u8> = Vec::new();
    let mut i: usize = 0;
    while i < n
        invariant
            n == log_len(buffer@.len(), written as int),
            i <= n,
            out@ == buffer@.subrange(0, i as int),
        decreases n - i,
    {
        out.push(buffer[i]);
        i = i + 1;
    }
    out
}

/// The outcome of one build step from the status the backend reported and
/// its log buffer: success, or the stage's error with the log text.
pub fn stage_outcome(stage: ShaderStage, status: i32, buffer: &[u8], written: i32) -> (r: Result<
    (),
    ShaderError,
>)
    ensures
        r is Ok <==> status == GL_TRUE,
        r matches Err(e) ==> e.stage == stage && e.log@ == log_text(buffer@, written as int),
{
    if status_ok(status) {
        Ok(())
    } else {
        Err(ShaderError { stage, log: info_log(buffer, written) })
    }
}

/// Where a program build stands: waiting for the status of a stage, done, or
/// stopped at the first failure.
#[derive(Clone, Copy, Debug, PartialEq, Eq, Structural)]
pub enum BuildPhase {
    Awaiting(ShaderStage),
    Ready,
    Failed,
}

/// The phase that follows a successful stage: vertex, then fragment, then link.
pub open spec fn phase_after(stage: ShaderStage) -> BuildPhase {
    match stage {
        ShaderStage::Vertex => BuildPhase::Awaiting(ShaderStage::Fragment),
        ShaderStage::Fragment => BuildPhase::Awaiting(ShaderStage::Link),
        ShaderStage::Link => BuildPhase::Ready,
    }
}

/// The sequence of a program build: both shaders are compiled and checked in
/// order, then linked; the first failure ends the build.
#[derive(Clone, Copy, Debug)]
pub struct ShaderBuild {
    pub phase: BuildPhase,
}

impl ShaderBuild {
    /// A build that waits for the vertex shader's compile status.
    pub fn new() -> (r: ShaderBuild)
        ensures
            r.phase == BuildPhase::Awaiting(ShaderStage::Vertex),
    {
        ShaderBuild { phase: BuildPhase::Awaiting(ShaderStage::Vertex) }
    }

    /// The stage whose status the build waits for, if any.
    pub fn awaiting(&self) -> (r: Option<ShaderStage>)
        ensures
            r is Some <==> self.phase is Awaiting,
            r matches Some(s) ==> self.phase == BuildPhase::Awaiting(s),
    {
        match self.phase {
            BuildPhase::Awaiting(s) => Some(s),
            _ => None,
        }
    }

    /// Takes the reported status and log buffer of the awaited stage and
    /// moves on to the next stage, or stops with that stage's error.
    pub fn report(&mut self, status: i32, buffer: &[u8], written: i32) -> (r: Result<(), ShaderError>)
        requires
            old(self).phase is Awaiting,
        ensures
            r is Ok <==> status == GL_TRUE,
            r matches Err(e) ==> e.stage == old(self).phase->Awaiting_0 && e.log@ == log_text(
                buffer@,
                written as int,
            ),
            final(self).phase == (if status == GL_TRUE {
                phase_after(old(self).phase->Awaiting_0)
            } else {
                BuildPhase::Failed
            }),
    {
        let stage = match self.phase {
            BuildPhase::Awaiting(s) => s,
            _ => ShaderStage::Vertex,
        };
        let r = stage_outcome(stage, status, buffer, written);
        self.phase = match r {
            Ok(()) => match stage {
                ShaderStage::Vertex => BuildPhase::Awaiting(ShaderStage::Fragment),
                ShaderStage::Fragment => BuildPhase::Awaiting(ShaderStage::Link),
                ShaderStage::Link => BuildPhase::Ready,
            },
            Err(_) => BuildPhase::Failed,
        };
        r
    }
}

} // verus!
