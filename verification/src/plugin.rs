//! What the controller sets up in its host: the settings it provides and
//! the steps it runs, at startup and in every frame.

use vstd::prelude::*;

verus! {

/// The two choices made when the controller is added to a host.
#[derive(Clone, Copy, Debug, PartialEq, Eq, Structural)]
pub struct FlyCameraPlugin {
    /// Spawn a camera of the controller's own at startup.
    pub spawn_camera: bool,
    /// Capture the cursor at startup.
    pub grab_cursor_on_startup: bool,
}

/// A group of settings that the host keeps for the controller.
#[derive(Clone, Copy, Debug, PartialEq, Eq, Structural)]
pub enum Settings {
    Movement,
    Mouse,
    KeyBindings,
}

/// When a step runs.
#[derive(Clone, Copy, Debug, PartialEq, Eq, Structural)]
pub enum Stage {
    /// Once, before the first frame.
    Startup,
    /// In every frame.
    Update,
}

/// A step of the controller.
#[derive(Clone, Copy, Debug, PartialEq, Eq, Structural)]
pub enum System {
    PlayerLook,
    PlayerMove,
    CursorGrabToggle,
    SetupCamera,
    InitialGrabCursor,
}

/// One thing for the host to set up.
#[derive(Clone, Copy, Debug, PartialEq, Eq, Structural)]
pub enum Setup {
    /// Provide these settings with their defaults unless the host has put
    /// its own in place.
    Provide(Settings),
    /// Run this step at this stage. Steps of one stage run in the order in
    /// which they are listed.
    Run(Stage, System),
}

impl FlyCameraPlugin {
    /// Both choices taken.
    pub open spec fn standard() -> FlyCameraPlugin {
        FlyCameraPlugin { spawn_camera: true, grab_cursor_on_startup: true }
    }

    /// What is set up whatever was chosen: all three groups of settings, and
    /// in every frame the look, then the move, then the check of the toggle
    /// key, so that a toggle shows from the next frame on.
    pub open spec fn always() -> Seq<Setup> {
        seq![
            Setup::Provide(Settings::Movement),
            Setup::Provide(Settings::Mouse),
            Setup::Provide(Settings::KeyBindings),
            Setup::Run(Stage::Update, System::PlayerLook),
            Setup::Run(Stage::Update, System::PlayerMove),
            Setup::Run(Stage::Update, System::CursorGrabToggle),
        ]
    }

    /// The whole list: what is always set up, then the camera if one is to
    /// be spawned, then the capture if the cursor is to be grabbed.
    pub open spec fn plan(self) -> Seq<Setup> {
        FlyCameraPlugin::always() + (if self.spawn_camera {
            seq![Setup::Run(Stage::Startup, System::SetupCamera)]
        } else {
            Seq::empty()
        }) + (if self.grab_cursor_on_startup {
            seq![Setup::Run(Stage::Startup, System::InitialGrabCursor)]
        } else {
            Seq::empty()
        })
    }

    /// Lists what the host has to set up for this controller.
    pub fn build(&self) -> (steps: Vec<Setup>)
        ensures
            steps@ == self.plan(),
    {
        let mut steps: Vec<Setup> = Vec::new();
        steps.push(Setup::Provide(Settings::Movement));
        steps.push(Setup::Provide(Settings::Mouse));
        steps.push(Setup::Provide(Settings::KeyBindings));
        steps.push(Setup::Run(Stage::Update, System::PlayerLook));
        steps.push(Setup::Run(Stage::Update, System::PlayerMove));
        steps.push(Setup::Run(Stage::Update, System::CursorGrabToggle));
        assert(steps@ =~= FlyCameraPlugin::always());
        if self.spawn_camera {
            steps.push(Setup::Run(Stage::Startup, System::SetupCamera));
        }
        if self.grab_cursor_on_startup {
            steps.push(Setup::Run(Stage::Startup, System::InitialGrabCursor));
        }
        assert(steps@ =~= self.plan());
        steps
    }
}

impl Default for FlyCameraPlugin {
    fn default() -> (r: FlyCameraPlugin)
        ensures
            r == FlyCameraPlugin::standard(),
    {
        FlyCameraPlugin { spawn_camera: true, grab_cursor_on_startup: true }
    }
}

} // verus!
