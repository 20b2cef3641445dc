//! Services that a window offers to the controls in it.

use vstd::prelude::*;

verus! {

/// Lets controls be shown in layers above the content of the window, as
/// menus and pop-ups are.
pub trait WindowService {
    /// The roots of the layers, the bottom one first.
    spec fn layers(&self) -> Seq<usize>;

    /// Puts the control on top of all layers.
    fn add_layer(&mut self, control: usize)
        ensures
            final(self).layers() == old(self).layers().push(control),
    ;

    /// Takes the control out of the layers, wherever it is.
    fn remove_layer(&mut self, control: usize)
        ensures
            final(self).layers() == old(self).layers().filter(|layer: usize| layer != control),
    ;
}

/// The layers of one window.
pub struct WindowLayers {
    pub layers: Vec<usize>,
}

impl WindowLayers {
    pub fn new() -> (service: Self)
        ensures
            service.layers@ == Seq::<usize>::empty(),
    {
        WindowLayers { layers: Vec::new() }
    }
}

impl WindowService for WindowLayers {
    open spec fn layers(&self) -> Seq<usize> {
        self.layers@
    }

    fn add_layer(&mut self, control: usize) {
        self.layers.push(control);
    }

    fn remove_layer(&mut self, control: usize) {
        let mut kept: Vec<usize> = Vec::new();
        let mut i: usize = 0;
        proof {
            reveal(Seq::filter);
        }
        while i < self.layers.len()
            invariant
                i <= self.layers@.len(),
                kept@ == self.layers@.take(i as int).filter(|layer: usize| layer != control),
            decreases self.layers.len() - i,
        {
            let layer = self.layers[i];
            proof {
                reveal(Seq::filter);
                assert(self.layers@.take(i as int + 1).drop_last() =~= self.layers@.take(i as int));
            }
            if layer != control {
                kept.push(layer);
            }
            i += 1;
        }
        assert(self.layers@.take(i as int) =~= self.layers@);
        self.layers = kept;
    }
}

} // verus!
