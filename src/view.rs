use vstd::prelude::*;

verus! {

/// A renderable page body: it names the title of the page it fills.
pub trait View {
    fn title(&self) -> &'static str;
}

/// A full page around one view.
pub struct Page<V: View>(pub V);

impl<V: View> Page<V> {
    /// The title of the page: that of its view.
    pub fn title(&self) -> &'static str {
        self.0.title()
    }
}

} // verus!
