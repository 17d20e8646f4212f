use vstd::prelude::*;

verus! {

/// What the user has set on the configuration panel.
pub struct Configuration {
    /// The interaction to choose on a fishing spot.
    pub spot_action: String,
    /// The name of the fishing spot to look for.
    pub spot_name: String,
    /// While true, the panel is open for editing and the script takes no action.
    pub editing: bool,
}

impl Configuration {
    /// The same configuration with the editing flag set to `editing`.
    pub open spec fn with_editing(self, editing: bool) -> Configuration {
        Configuration { spot_action: self.spot_action, spot_name: self.spot_name, editing }
    }

    /// Opens the configuration for editing.
    pub fn begin_editing(&mut self)
        ensures
            *final(self) == old(self).with_editing(true),
    {
        self.editing = true;
    }

    /// Closes editing, so that the script acts on the configuration.
    pub fn complete_editing(&mut self)
        ensures
            *final(self) == old(self).with_editing(false),
    {
        self.editing = false;
    }
}

impl Default for Configuration {
    /// Netting at a "Fishing spot", with the panel open for editing.
    fn default() -> (r: Configuration)
        ensures
            r.spot_action@ == "Net"@,
            r.spot_name@ == "Fishing spot"@,
            r.editing,
    {
        Configuration {
            spot_action: "Net".to_owned(),
            spot_name: "Fishing spot".to_owned(),
            editing: true,
        }
    }
}

/// Opening the configuration for editing and closing it again leaves the
/// entered strings exactly as they were.
pub proof fn lemma_toggle_editing_keeps_strings(c: Configuration)
    ensures
        c.with_editing(true).with_editing(false).spot_action == c.spot_action,
        c.with_editing(true).with_editing(false).spot_name == c.spot_name,
        !c.with_editing(true).with_editing(false).editing,
{
}

} // verus!
