use vstd::prelude::*;

verus! {

/// A drawable that keeps its commands in a buffer of its own.
pub trait GraphMaker {
    /// The commands in the buffer.
    spec fn buffer_view(&self) -> Seq<char>;

    /// Returns the buffer.
    fn get_buffer(&self) -> (r: &String)
        ensures
            r@ == self.buffer_view(),
    ;

    /// Empties the buffer.
    fn clear_buffer(&mut self)
        ensures
            final(self).buffer_view() == Seq::<char>::empty(),
    ;
}

} // verus!
