//! Plugins that add formats to BASS.
use vstd::prelude::*;
use crate::channel::handle::HasHandle;
use crate::bass::error::BassError;
use crate::result::check;
use crate::calls;
use crate::BassResult;

verus! {

/// A loaded plugin. Its handle is never 0: every plugin that exists was loaded.
pub struct Plugin(pub(crate) u32);

impl Plugin {
    /// A plugin always holds the nonzero handle that loading it gave.
    #[verifier::type_invariant]
    spec fn handle_nonzero(self) -> bool {
        self.0 != 0
    }
}

/// The plugin that `handle` stands for.
pub(crate) fn plugin(handle: u32) -> (r: Plugin)
    requires
        handle != 0,
    ensures
        r.spec_handle() == handle,
{
    Plugin(handle)
}

impl Plugin {
    /// The plugin for the handle that `BASS_PluginLoad` returned; 0 means that
    /// loading failed, with the error that BASS reports.
    pub fn from_load_result(handle: u32) -> (r: BassResult<Plugin>)
        ensures
            handle != 0 <==> r is Ok,
            r matches Ok(p) ==> p.spec_handle() == handle,
    {
        if handle == 0 {
            Err(BassError::get())
        } else {
            Ok(plugin(handle))
        }
    }

    /// The handle of a plugin is never 0.
    pub fn nonzero_handle(&self) -> (h: u32)
        ensures
            h == self.spec_handle(),
            h != 0,
    {
        proof {
            use_type_invariant(self);
        }
        self.0
    }

    /// Unplugs the plugin.
    pub fn free(&self) -> (r: BassResult<()>)
        ensures
            exists|answer: i32|
                #[trigger] calls::returned_plugin_free(self.spec_handle(), answer) && (answer != 0 <==> r is Ok),
    {
        check(calls::plugin_free(self.nonzero_handle()) != 0)
    }
}

impl HasHandle for Plugin {
    closed spec fn spec_handle(&self) -> u32 {
        self.0
    }

    fn handle(&self) -> (h: u32) {
        self.0
    }
}

/// What a plugin reports of itself.
#[derive(Debug, Default)]
pub struct PluginInfo {
    pub version: u32,
    pub formats: Vec<PluginFormat>,
}

/// A format that a plugin supports.
#[derive(Debug, Default)]
pub struct PluginFormat {
    /// The channel type, as would appear in the BASS_CHANNELINFO structure.
    pub channel_type: u32,
    /// Format description.
    pub name: String,
    /// File extension filter, in the form of "*.ext1;*.ext2;...".
    pub exts: String,
}

} // verus!
