use vstd::prelude::*;

verus! {

/// A game window found on the desktop: its full title, its native handle,
/// and the character name and class read from the title.
#[derive(Debug, PartialEq, Eq)]
pub struct DofusWindow {
    pub title: String,
    pub hwnd: usize,
    pub name: String,
    pub class: String,
}

/// The mathematical value of a [`DofusWindow`].
pub struct DofusWindowView {
    pub title: Seq<char>,
    pub hwnd: usize,
    pub name: Seq<char>,
    pub class: Seq<char>,
}

impl View for DofusWindow {
    type V = DofusWindowView;

    open spec fn view(&self) -> DofusWindowView {
        DofusWindowView { title: self.title@, hwnd: self.hwnd, name: self.name@, class: self.class@ }
    }
}

impl Clone for DofusWindow {
    fn clone(&self) -> (copy: Self)
        ensures
            copy@ == self@,
    {
        DofusWindow {
            title: self.title.clone(),
            hwnd: self.hwnd,
            name: self.name.clone(),
            class: self.class.clone(),
        }
    }
}

/// The views of a sequence of windows.
pub open spec fn windows_view(ws: Seq<DofusWindow>) -> Seq<DofusWindowView> {
    ws.map_values(|w: DofusWindow| w@)
}

/// Copies a list of windows, keeping every window's value.
pub fn copy_windows(ws: &Vec<DofusWindow>) -> (copy: Vec<DofusWindow>)
    ensures
        windows_view(copy@) == windows_view(ws@),
{
    let mut copy: Vec<DofusWindow> = Vec::new();
    let mut i: usize = 0;
    while i < ws.len()
        invariant
            i <= ws.len(),
            copy@.len() == i,
            forall|j: int| 0 <= j < i ==> (#[trigger] copy@[j])@ == ws@[j]@,
        decreases ws.len() - i,
    {
        copy.push(ws[i].clone());
        i = i + 1;
    }
    assert(windows_view(copy@) =~= windows_view(ws@));
    copy
}

} // verus!
