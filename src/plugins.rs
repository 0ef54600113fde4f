//! A registry of plugins, kept in the order they were registered.
use vstd::prelude::*;

verus! {

/// A named command extension.
pub trait Plugin {
    fn name(&self) -> &str;

    fn execute(&self, args: &[String]) -> Result<String, String>;
}

impl<T: Plugin + ?Sized> Plugin for Box<T> {
    fn name(&self) -> &str {
        (**self).name()
    }

    fn execute(&self, args: &[String]) -> Result<String, String> {
        (**self).execute(args)
    }
}

/// Holds plugins of one type; `PluginManager<Box<dyn Plugin>>` holds any mix.
pub struct PluginManager<P: Plugin> {
    plugins: Vec<P>,
}

impl<P: Plugin> PluginManager<P> {
    /// The registered plugins, in order.
    pub closed spec fn registered(&self) -> Seq<P> {
        self.plugins@
    }

    pub fn new() -> (r: PluginManager<P>)
        ensures
            r.registered() == Seq::<P>::empty(),
    {
        PluginManager { plugins: Vec::new() }
    }

    pub fn register(&mut self, plugin: P)
        ensures
            final(self).registered() == old(self).registered().push(plugin),
    {
        self.plugins.push(plugin);
    }

    pub fn len(&self) -> (r: usize)
        ensures
            r == self.registered().len(),
    {
        self.plugins.len()
    }
}

} // verus!
