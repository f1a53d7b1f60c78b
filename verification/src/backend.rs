//! The backend selector, its wire tags, and the capability interface every
//! backend implements.

use vstd::prelude::*;

verus! {

/// The selected native graphics API.  Chosen once at startup and immutable
/// for the lifetime of a renderer; `UNDEFINED` must be resolved by the
/// caller before a renderer is built.
#[allow(non_camel_case_types)]
#[derive(Clone, Copy, Debug, PartialEq, Eq, Structural)]
pub enum Backend {
    GL,
    VK,
    UNDEFINED,
}

/// The wire tag of a backend, as persisted project configuration writes
/// it.
pub open spec fn backend_tag(b: Backend) -> Seq<char> {
    match b {
        Backend::GL => "GL"@,
        Backend::VK => "VK"@,
        Backend::UNDEFINED => "UNDEFINED"@,
    }
}

/// The backend a wire tag reads as, if any.
pub open spec fn backend_of_tag(s: Seq<char>) -> Option<Backend> {
    if s == "GL"@ {
        Some(Backend::GL)
    } else if s == "VK"@ {
        Some(Backend::VK)
    } else if s == "UNDEFINED"@ {
        Some(Backend::UNDEFINED)
    } else {
        None
    }
}

/// Whether two strings hold the same characters.
fn str_eq(a: &str, b: &str) -> (r: bool)
    ensures
        r == (a@ == b@),
{
    let a_len = a.unicode_len();
    let b_len = b.unicode_len();
    if a_len != b_len {
        return false;
    }
    let mut i: usize = 0;
    while i < a_len
        invariant
            0 <= i <= a_len,
            a_len == a@.len(),
            a_len == b@.len(),
            forall|j: int| 0 <= j < i ==> a@[j] == b@[j],
        decreases a_len - i,
    {
        if a.get_char(i) != b.get_char(i) {
            return false;
        }
        i = i + 1;
    }
    proof {
        assert(a@ =~= b@);
    }
    true
}

impl Backend {
    /// The wire tag of this backend.
    pub fn tag(&self) -> (r: &'static str)
        ensures
            r@ == backend_tag(*self),
    {
        match self {
            Backend::GL => "GL",
            Backend::VK => "VK",
            Backend::UNDEFINED => "UNDEFINED",
        }
    }

    /// Reads a backend from its wire tag; any other string reads as
    /// nothing.
    pub fn from_tag(s: &str) -> (r: Option<Backend>)
        ensures
            r == backend_of_tag(s@),
    {
        if str_eq(s, "GL") {
            Some(Backend::GL)
        } else if str_eq(s, "VK") {
            Some(Backend::VK)
        } else if str_eq(s, "UNDEFINED") {
            Some(Backend::UNDEFINED)
        } else {
            None
        }
    }
}

/// Round trip through the wire form: every backend's tag reads back as
/// that backend.
pub proof fn lemma_backend_tag_round_trip(b: Backend)
    ensures
        backend_of_tag(backend_tag(b)) == Some(b),
{
    reveal_strlit("GL");
    reveal_strlit("VK");
    reveal_strlit("UNDEFINED");
    assert("GL"@.len() == 2);
    assert("VK"@.len() == 2);
    assert("UNDEFINED"@.len() == 9);
    assert("GL"@[0] == 'G' && "VK"@[0] == 'V');
}

/// The capability every backend offers: presenting the frame just drawn.
/// A backend counts the presents performed through it, and each call
/// performs exactly one.
pub trait RendererT: Sized {
    /// How many presents were performed through this backend.
    spec fn swaps(&self) -> u64;

    /// Presents the frame: exactly one swap per invocation.
    fn swap_buffers(&mut self)
        requires
            old(self).swaps() < u64::MAX,
        ensures
            final(self).swaps() == old(self).swaps() + 1,
    ;
}

/// The draw-level commands a renderer can be handed.  Command recording
/// is out of scope at this layer; the set only names the operations.
#[derive(Clone, Copy, Debug, PartialEq, Eq, Structural)]
pub enum RenderCommand {
    Clear,
    SetClearColor,
    DrawIndexed,
    Draw,
    Flush,
}

} // verus!
