//! The launcher as a whole: its four pages, the page that is shown, and the
//! instance that is chosen in the footer.

use vstd::prelude::*;
use vstd::string::StringExecFns;
use crate::home::HomePage;
use crate::instances::{
    fresh_registry, instance_models, Instance, InstanceCmd, InstancesPage, RegistryModel,
};
use crate::launcher::{launch_message, LaunchResult};
use crate::layout::{launch_candidates, launch_root, launch_root_spec, texts};
use crate::mods::{initial_mods, ModsModel, ModsPage};
use crate::versions::{initial_page, PageModel, VersionPage};

verus! {

/// The pages of the launcher.
#[derive(Clone, Copy, Debug, PartialEq, Eq)]
pub enum Screen {
    Home,
    Versions,
    Instances,
    Mods,
}

/// What has to be tried to launch an instance: the executables, in the
/// order in which they are tried, and the folder in which the one that is
/// found has to be run.
#[derive(Clone, Debug, PartialEq, Eq)]
pub struct LaunchPlan {
    pub candidates: Vec<String>,
    pub working_dir: String,
}

/// The launcher.
pub struct VsLauncherApp {
    view: Screen,
    pub home: HomePage,
    pub versions: VersionPage,
    pub instances: InstancesPage,
    selected_idx: Option<usize>,
    pub mods: ModsPage,
}

impl VsLauncherApp {
    /// The page that is shown.
    pub closed spec fn shown(&self) -> Screen {
        self.view
    }

    /// The position of the instance that is chosen in the footer.
    pub closed spec fn selected(&self) -> Option<usize> {
        self.selected_idx
    }

    /// What the instances page holds.
    pub closed spec fn registry(&self) -> RegistryModel {
        self.instances@
    }

    /// What the versions page holds.
    pub closed spec fn catalog(&self) -> PageModel {
        self.versions@
    }

    /// What the mods page holds.
    pub closed spec fn browser(&self) -> ModsModel {
        self.mods@
    }

    /// The launcher as it starts: the home page, nothing chosen, the
    /// instances that were loaded.
    pub fn new(instances: Vec<Instance>) -> (app: VsLauncherApp)
        ensures
            app.shown() == Screen::Home,
            app.selected().is_none(),
            app.registry() == fresh_registry(instance_models(instances@)),
            app.catalog() == initial_page(),
            app.browser() == initial_mods(),
    {
        VsLauncherApp {
            view: Screen::Home,
            home: HomePage,
            versions: VersionPage::new(),
            instances: InstancesPage::new(instances),
            selected_idx: None,
            mods: ModsPage::new(),
        }
    }

    /// The page that is shown.
    pub fn screen(&self) -> (v: Screen)
        ensures
            v == self.shown(),
    {
        self.view
    }

    /// Shows another page; the pages themselves are left as they are.
    pub fn show(&mut self, screen: Screen)
        ensures
            final(self).shown() == screen,
            final(self).selected() == old(self).selected(),
            final(self).registry() == old(self).registry(),
            final(self).catalog() == old(self).catalog(),
            final(self).browser() == old(self).browser(),
    {
        self.view = screen;
    }

    /// The position of the instance that is chosen in the footer.
    pub fn selected_idx(&self) -> (idx: Option<usize>)
        ensures
            idx == self.selected(),
    {
        self.selected_idx
    }

    /// Chooses an instance in the footer.
    pub fn select(&mut self, idx: Option<usize>)
        ensures
            final(self).selected() == idx,
            final(self).shown() == old(self).shown(),
            final(self).registry() == old(self).registry(),
            final(self).catalog() == old(self).catalog(),
            final(self).browser() == old(self).browser(),
    {
        self.selected_idx = idx;
    }

    /// The text of the footer's chooser: the name of the chosen instance,
    /// or an invitation to choose where none is chosen or the chosen one is
    /// gone.
    pub fn selected_label(&self) -> (label: String)
        ensures
            label@ == match self.selected() {
                Some(i) => if i < self.registry().instances.len() {
                    self.registry().instances[i as int].name
                } else {
                    "(choose instance)"@
                },
                None => "(choose instance)"@,
            },
    {
        match self.selected_idx {
            Some(i) => {
                if i < self.instances.count() {
                    self.instances.name_of(i)
                } else {
                    String::from_str("(choose instance)")
                }
            },
            None => String::from_str("(choose instance)"),
        }
    }

    /// Whether the footer's play button is live: an instance is chosen.
    pub fn play_enabled(&self) -> (enabled: bool)
        ensures
            enabled == self.selected().is_some(),
    {
        self.selected_idx.is_some()
    }

    /// The instance that has to be launched for a command of the instances
    /// page, if any.
    pub fn command_target(cmd: InstanceCmd) -> (idx: Option<usize>)
        ensures
            idx == match cmd {
                InstanceCmd::Play(i) => Some(i),
                InstanceCmd::Nothing => None,
            },
    {
        match cmd {
            InstanceCmd::Play(i) => Some(i),
            InstanceCmd::Nothing => None,
        }
    }

    /// What has to be tried to launch the instance at `idx`; nothing where
    /// there is no such instance.
    pub fn launch_plan(&self, idx: usize, root: &str) -> (plan: Option<LaunchPlan>)
        ensures
            match plan {
                Some(p) => {
                    &&& idx < self.registry().instances.len()
                    &&& p.working_dir@ == launch_root_spec(
                        root@,
                        self.registry().instances[idx as int].version,
                    )
                    &&& texts(p.candidates@) == seq![
                        p.working_dir@ + "/Vintagestory"@,
                        p.working_dir@ + "/run.sh"@,
                        p.working_dir@ + "/Vintagestory.exe"@,
                    ]
                },
                None => idx >= self.registry().instances.len(),
            },
    {
        if idx < self.instances.count() {
            let version = self.instances.version_of(idx);
            Some(
                LaunchPlan {
                    candidates: launch_candidates(root, version.as_str()),
                    working_dir: launch_root(root, version.as_str()),
                },
            )
        } else {
            None
        }
    }

    /// Notes how the launch of the instance at `idx` ended: the status line
    /// of the instances page says it. Where there is no such instance
    /// nothing changes.
    pub fn launch_instance(&mut self, idx: usize, result: &LaunchResult)
        ensures
            final(self).shown() == old(self).shown(),
            final(self).selected() == old(self).selected(),
            final(self).catalog() == old(self).catalog(),
            final(self).browser() == old(self).browser(),
            final(self).registry() == if idx < old(self).registry().instances.len() {
                RegistryModel {
                    status: Some(
                        launch_message(result@, old(self).registry().instances[idx as int].name),
                    ),
                    ..old(self).registry()
                }
            } else {
                old(self).registry()
            },
    {
        if idx < self.instances.count() {
            let name = self.instances.name_of(idx);
            let line = result.status(name.as_str());
            self.instances.set_status(line);
        }
    }
}

} // verus!
