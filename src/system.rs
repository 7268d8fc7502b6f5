use vstd::prelude::*;

use crate::canvas::DrawOp;
use crate::screen::{ContentScreen, DefaultContentScreen};

verus! {

/// A handle for manipulating a window.
pub trait Window {
    /// Make the window visible to the user.
    fn show(&mut self);
}

/// Properties helping to define how a window appears and acts.
pub struct WindowSettings<S> {
    /// The title of the window.
    pub title: String,
    /// The size of the window.
    pub size: (u32, u32),
    /// The position of the window.
    pub position: (u32, u32),
    /// Whether the window should have a border and title bar (decorated) or not
    /// (undecorated) when supported.
    pub decorated: bool,
    /// The content to display in the window.
    pub screen: S,
}

impl Default for WindowSettings<DefaultContentScreen> {
    /// An 800 by 600 decorated window at (100, 100) titled "Application", showing
    /// nothing.
    fn default() -> (w: WindowSettings<DefaultContentScreen>)
        ensures
            w.title@ == "Application"@,
            w.size == (800u32, 600u32),
            w.position == (100u32, 100u32),
            w.decorated,
            w.screen.is_dirty(),
            forall|ops: Seq<DrawOp>| #[trigger] w.screen.draws(ops) <==> ops.len() == 0,
    {
        WindowSettings {
            title: String::from_str("Application"),
            size: (800, 600),
            position: (100, 100),
            decorated: true,
            screen: DefaultContentScreen {},
        }
    }
}

/// The Skia backend that renders through OpenGL.
#[derive(Clone, Copy, Debug, PartialEq, Eq, Structural)]
pub struct GLBackend {}

impl GLBackend {
    /// The OpenGL backend.
    pub fn new() -> (b: GLBackend)
        ensures
            b == (GLBackend {}),
    {
        GLBackend {}
    }
}

/// The windows of `windows` that stay open, in order: those whose entry in `closing`
/// is false.
pub open spec fn kept<W>(windows: Seq<W>, closing: Seq<bool>) -> Seq<W>
    decreases windows.len(),
{
    if windows.len() == 0 {
        Seq::empty()
    } else {
        let n = windows.len() - 1;
        kept(windows.take(n), closing) + if closing[n] {
            Seq::empty()
        } else {
            seq![windows[n]]
        }
    }
}

/// Drop from the active set every window whose surface reports a close request
/// (`closing[i]` for the `i`-th window); the others keep their order.
pub fn retain_open<W>(windows: &mut Vec<W>, closing: &Vec<bool>)
    requires
        old(windows).len() == closing.len(),
    ensures
        final(windows)@ == kept(old(windows)@, closing@),
{
    let ghost all = windows@;
    let n: usize = closing.len();
    let mut i: usize = 0;
    let mut j: usize = 0;
    assert(all.take(0) =~= Seq::<W>::empty());
    assert(all.skip(0) =~= all);
    while i < n
        invariant
            0 <= i <= n,
            n == closing@.len(),
            all.len() == n,
            windows@ == kept(all.take(i as int), closing@) + all.skip(i as int),
            j == kept(all.take(i as int), closing@).len(),
        decreases n - i,
    {
        let ghost before = kept(all.take(i as int), closing@);
        assert(j < windows.len());
        assert(all.take(i as int + 1).take(i as int) =~= all.take(i as int));
        assert(all.skip(i as int) =~= seq![all[i as int]] + all.skip(i as int + 1));
        if closing[i] {
            windows.remove(j);
            assert(windows@ =~= before + all.skip(i as int + 1));
        } else {
            assert(windows@ =~= (before + seq![all[i as int]]) + all.skip(i as int + 1));
            j = j + 1;
        }
        i = i + 1;
    }
    assert(all.take(n as int) =~= all);
    assert(all.skip(n as int) =~= Seq::<W>::empty());
    assert(windows@ =~= kept(all, closing@));
}

} // verus!
