//! The registry of instances: named configurations that pin a version. The
//! page keeps the list, the form by which an instance is made, and the
//! status line; folders and the registry file are the caller's business.

use vstd::prelude::*;
use vstd::string::StringExecFns;
use vstd::seq_lib::to_multiset_build;
use crate::layout::{instance_dir, instance_dir_spec, texts};
use crate::text::{join2, same_text};
use crate::text_order::{sort_texts, texts_sorted};
use crate::versions::text_model;

verus! {

/// A named configuration that pins a version.
#[derive(Clone, Debug, PartialEq, Eq)]
pub struct Instance {
    pub name: String,
    pub version: String,
}

/// What an instance stands for.
pub struct InstanceModel {
    pub name: Seq<char>,
    pub version: Seq<char>,
}

impl View for Instance {
    type V = InstanceModel;

    open spec fn view(&self) -> InstanceModel {
        InstanceModel { name: self.name@, version: self.version@ }
    }
}

/// What the page asks its caller to do.
#[derive(Clone, Copy, Debug, PartialEq, Eq)]
pub enum InstanceCmd {
    /// Launch the instance at this position.
    Play(usize),
    /// Do nothing.
    Nothing,
}

/// A folder under the versions folder, as the caller found it.
#[derive(Clone, Debug, PartialEq, Eq)]
pub struct VersionFolder {
    /// The folder's name, where it is valid text.
    pub name: Option<String>,
    /// Whether the folder holds an install folder.
    pub installed: bool,
}

/// What a list of instances stands for.
pub open spec fn instance_models(list: Seq<Instance>) -> Seq<InstanceModel> {
    Seq::new(list.len(), |i: int| list[i]@)
}

/// The names of the folders that hold an installed version, in the order of
/// the folders.
pub open spec fn installed_names(folders: Seq<VersionFolder>) -> Seq<Seq<char>>
    decreases folders.len(),
{
    if folders.len() == 0 {
        Seq::empty()
    } else {
        let rest = installed_names(folders.drop_last());
        let last = folders.last();
        if last.installed && last.name.is_some() {
            rest.push(last.name.unwrap()@)
        } else {
            rest
        }
    }
}

/// The versions that are installed, sorted by name: the names of the folders
/// that hold an install folder and have a name that is valid text.
pub fn installed_versions(folders: &Vec<VersionFolder>) -> (names: Vec<String>)
    ensures
        texts_sorted(texts(names@)),
        texts(names@).to_multiset() == installed_names(folders@).to_multiset(),
{
    let mut kept: Vec<String> = Vec::new();
    let mut i: usize = 0;
    assert(folders@.take(0) =~= Seq::<VersionFolder>::empty());
    assert(texts(kept@) =~= installed_names(folders@.take(0)));
    while i < folders.len()
        invariant
            i <= folders.len(),
            texts(kept@) == installed_names(folders@.take(i as int)),
        decreases folders.len() - i,
    {
        proof {
            assert(folders@.take(i + 1).drop_last() =~= folders@.take(i as int));
        }
        if folders[i].installed {
            if let Some(name) = &folders[i].name {
                let ghost before = texts(kept@);
                kept.push(name.clone());
                assert(texts(kept@) =~= before.push(name@));
            }
        }
        i += 1;
    }
    assert(folders@.take(folders.len() as int) =~= folders@);
    sort_texts(&kept)
}

/// The page of instances.
pub struct InstancesPage {
    pub instances: Vec<Instance>,
    new_name: String,
    new_version: String,
    show_modal: bool,
    pub status_msg: Option<String>,
    pending_delete: Option<usize>,
}

/// What the page holds.
#[verifier::ext_equal]
pub struct RegistryModel {
    /// The instances, in the order in which they are listed.
    pub instances: Seq<InstanceModel>,
    /// The name in the form.
    pub new_name: Seq<char>,
    /// The version in the form.
    pub new_version: Seq<char>,
    /// Whether the form is shown.
    pub show_modal: bool,
    /// The status line, if there is one.
    pub status: Option<Seq<char>>,
    /// The position of the instance that is to be deleted, if one is.
    pub pending_delete: Option<usize>,
}

impl View for InstancesPage {
    type V = RegistryModel;

    closed spec fn view(&self) -> RegistryModel {
        RegistryModel {
            instances: instance_models(self.instances@),
            new_name: self.new_name@,
            new_version: self.new_version@,
            show_modal: self.show_modal,
            status: text_model(self.status_msg),
            pending_delete: self.pending_delete,
        }
    }
}

/// The registry with these instances, an empty form and no status.
pub open spec fn fresh_registry(instances: Seq<InstanceModel>) -> RegistryModel {
    RegistryModel {
        instances,
        new_name: Seq::empty(),
        new_version: Seq::empty(),
        show_modal: false,
        status: None,
        pending_delete: None,
    }
}

/// True when the form may be turned into an instance: it names both the
/// instance and its version.
pub open spec fn form_complete(m: RegistryModel) -> bool {
    m.new_name.len() > 0 && m.new_version.len() > 0
}

/// True when no two instances of the list have the same name.
pub open spec fn names_distinct(list: Seq<InstanceModel>) -> bool {
    forall|i: int, j: int|
        0 <= i < j < list.len() ==> (#[trigger] list[i]).name != (#[trigger] list[j]).name
}

/// True when an instance of the list has the name that the form gives.
pub open spec fn name_taken(m: RegistryModel) -> bool {
    exists|j: int| 0 <= j < m.instances.len() && (#[trigger] m.instances[j]).name == m.new_name
}

/// The registry with the instance of the form added at its end.
pub open spec fn with_created(m: RegistryModel) -> RegistryModel {
    RegistryModel {
        instances: m.instances.push(InstanceModel { name: m.new_name, version: m.new_version }),
        ..m
    }
}

/// The status line that refuses a name that is taken.
pub open spec fn taken_message(name: Seq<char>) -> Seq<char> {
    "An instance named "@ + name + " already exists"@
}

/// The registry after an attempt to make the instance of the form: where
/// its name is taken the list stays as it was and the status line says so;
/// else the instance is added at the end.
pub open spec fn after_create(m: RegistryModel) -> RegistryModel {
    if name_taken(m) {
        RegistryModel { status: Some(taken_message(m.new_name)), ..m }
    } else {
        with_created(m)
    }
}

/// The registry after the folder of the instance at `idx` was removed, or
/// could not be: where it could not, the instance stays and the status line
/// gives the reason; where it was, the instance leaves the list.
pub open spec fn after_removal(m: RegistryModel, idx: int, failure: Option<Seq<char>>)
    -> RegistryModel {
    match failure {
        Some(reason) => RegistryModel { status: Some("Delete error: "@ + reason), ..m },
        None => RegistryModel {
            instances: m.instances.remove(idx),
            status: Some("Instance deleted"@),
            ..m
        },
    }
}

impl InstancesPage {
    /// The page with the instances that were loaded: empty form, no status.
    pub fn new(instances: Vec<Instance>) -> (page: InstancesPage)
        ensures
            page@ == fresh_registry(instance_models(instances@)),
    {
        let page = InstancesPage {
            instances,
            new_name: String::new(),
            new_version: String::new(),
            show_modal: false,
            status_msg: None,
            pending_delete: None,
        };
        assert(page@ =~= fresh_registry(instance_models(instances@)));
        page
    }

    /// The number of instances.
    pub fn count(&self) -> (n: usize)
        ensures
            n == self@.instances.len(),
    {
        self.instances.len()
    }

    /// The name of the instance at `idx`.
    pub fn name_of(&self, idx: usize) -> (name: String)
        requires
            idx < self@.instances.len(),
        ensures
            name@ == self@.instances[idx as int].name,
    {
        self.instances[idx].name.clone()
    }

    /// The version of the instance at `idx`.
    pub fn version_of(&self, idx: usize) -> (version: String)
        requires
            idx < self@.instances.len(),
        ensures
            version@ == self@.instances[idx as int].version,
    {
        self.instances[idx].version.clone()
    }

    /// Sets the status line.
    pub fn set_status(&mut self, line: String)
        ensures
            final(self)@ == (RegistryModel { status: Some(line@), ..old(self)@ }),
    {
        self.status_msg = Some(line);
        assert(self@ =~= (RegistryModel { status: Some(line@), ..old(self)@ }));
    }

    /// The status line, if there is one.
    pub fn status(&self) -> (line: Option<String>)
        ensures
            text_model(line) == self@.status,
    {
        match &self.status_msg {
            Some(text) => Some(text.clone()),
            None => None,
        }
    }

    /// Whether the form is shown.
    pub fn show_modal(&self) -> (shown: bool)
        ensures
            shown == self@.show_modal,
    {
        self.show_modal
    }

    /// The name in the form.
    pub fn new_name(&self) -> (name: String)
        ensures
            name@ == self@.new_name,
    {
        self.new_name.clone()
    }

    /// The version in the form.
    pub fn new_version(&self) -> (version: String)
        ensures
            version@ == self@.new_version,
    {
        self.new_version.clone()
    }

    /// Sets the name in the form.
    pub fn set_new_name(&mut self, name: &str)
        ensures
            final(self)@ == (RegistryModel { new_name: name@, ..old(self)@ }),
    {
        self.new_name = String::from_str(name);
        assert(self@ =~= (RegistryModel { new_name: name@, ..old(self)@ }));
    }

    /// Sets the version in the form.
    pub fn set_new_version(&mut self, version: &str)
        ensures
            final(self)@ == (RegistryModel { new_version: version@, ..old(self)@ }),
    {
        self.new_version = String::from_str(version);
        assert(self@ =~= (RegistryModel { new_version: version@, ..old(self)@ }));
    }

    /// Shows the form, emptied.
    pub fn open_modal(&mut self)
        ensures
            final(self)@ == (RegistryModel {
                new_name: Seq::empty(),
                new_version: Seq::empty(),
                show_modal: true,
                ..old(self)@
            }),
    {
        self.new_name = String::new();
        self.new_version = String::new();
        self.show_modal = true;
        assert(self@ =~= (RegistryModel {
            new_name: Seq::empty(),
            new_version: Seq::empty(),
            show_modal: true,
            ..old(self)@
        }));
    }

    /// Hides the form and makes nothing of it.
    pub fn cancel_modal(&mut self)
        ensures
            final(self)@ == (RegistryModel { show_modal: false, ..old(self)@ }),
    {
        self.show_modal = false;
        assert(self@ =~= (RegistryModel { show_modal: false, ..old(self)@ }));
    }

    /// Tells whether an instance has the name that the form gives.
    pub fn name_is_taken(&self) -> (taken: bool)
        ensures
            taken == name_taken(self@),
    {
        let mut i: usize = 0;
        while i < self.instances.len()
            invariant
                i <= self.instances.len(),
                self@.instances == instance_models(self.instances@),
                self@.new_name == self.new_name@,
                forall|j: int| 0 <= j < i ==> (#[trigger] self@.instances[j]).name != self@.new_name,
            decreases self.instances.len() - i,
        {
            if same_text(self.instances[i].name.as_str(), self.new_name.as_str()) {
                assert(self@.instances[i as int].name == self@.new_name);
                return true;
            }
            i += 1;
        }
        false
    }

    /// Makes the instance that the form describes, unless its name is taken.
    ///
    /// A name stands for one instance only. Where an instance has the name
    /// already, nothing is added and the status line says so; else the
    /// instance is added at the end of the list. Either way, names that were
    /// distinct stay distinct.
    pub fn create_instance(&mut self) -> (created: bool)
        ensures
            created == !name_taken(old(self)@),
            final(self)@ == after_create(old(self)@),
            names_distinct(old(self)@.instances) ==> names_distinct(final(self)@.instances),
    {
        let ghost before = self@;
        if self.name_is_taken() {
            let mut line = join2("An instance named ", self.new_name.as_str());
            line.append(" already exists");
            self.status_msg = Some(line);
            assert(self@ =~= after_create(before));
            false
        } else {
            self.instances.push(
                Instance { name: self.new_name.clone(), version: self.new_version.clone() },
            );
            assert(self@ =~= with_created(before));
            proof {
                if names_distinct(before.instances) {
                    let after = self@.instances;
                    assert forall|i: int, j: int| 0 <= i < j < after.len() implies (
                    #[trigger] after[i]).name != (#[trigger] after[j]).name by {
                        assert(after[i] == before.instances[i]);
                        if j < before.instances.len() {
                            assert(after[j] == before.instances[j]);
                        }
                    }
                }
            }
            true
        }
    }

    /// Turns the form into an instance and hides it, provided the form is
    /// complete and its name is free. An incomplete form changes nothing and
    /// stays; a form whose name is taken stays too, under a status line that
    /// says so, and the list is left as it was.
    pub fn confirm_create(&mut self) -> (created: bool)
        ensures
            created == (form_complete(old(self)@) && !name_taken(old(self)@)),
            final(self)@ == if !form_complete(old(self)@) {
                old(self)@
            } else if name_taken(old(self)@) {
                after_create(old(self)@)
            } else {
                RegistryModel { show_modal: false, ..with_created(old(self)@) }
            },
            names_distinct(old(self)@.instances) ==> names_distinct(final(self)@.instances),
    {
        if !self.new_name.as_str().is_empty() && !self.new_version.as_str().is_empty() {
            if self.create_instance() {
                self.show_modal = false;
                assert(self@ =~= (RegistryModel {
                    show_modal: false,
                    ..with_created(old(self)@)
                }));
                true
            } else {
                false
            }
        } else {
            false
        }
    }

    /// Forgets which instance was to be deleted.
    pub fn clear_pending(&mut self)
        ensures
            final(self)@ == (RegistryModel { pending_delete: None, ..old(self)@ }),
    {
        self.pending_delete = None;
        assert(self@ =~= (RegistryModel { pending_delete: None, ..old(self)@ }));
    }

    /// Notes that the instance at `idx` is to be deleted.
    pub fn request_delete(&mut self, idx: usize)
        ensures
            final(self)@ == (RegistryModel { pending_delete: Some(idx), ..old(self)@ }),
    {
        self.pending_delete = Some(idx);
        assert(self@ =~= (RegistryModel { pending_delete: Some(idx), ..old(self)@ }));
    }

    /// Hands out the position of the instance that is to be deleted, and
    /// forgets it.
    pub fn take_pending(&mut self) -> (idx: Option<usize>)
        ensures
            idx == old(self)@.pending_delete,
            final(self)@ == (RegistryModel { pending_delete: None, ..old(self)@ }),
    {
        let idx = self.pending_delete;
        self.pending_delete = None;
        assert(self@ =~= (RegistryModel { pending_delete: None, ..old(self)@ }));
        idx
    }

    /// The folder of the instance at `idx`, which has to be removed before
    /// the instance is; nothing where there is no such instance.
    pub fn folder_of(&self, idx: usize, root: &str) -> (folder: Option<String>)
        ensures
            match folder {
                Some(path) => idx < self@.instances.len() && path@ == instance_dir_spec(
                    root@,
                    self@.instances[idx as int].name,
                ),
                None => idx >= self@.instances.len(),
            },
    {
        if idx < self.instances.len() {
            Some(instance_dir(root, self.instances[idx].name.as_str()))
        } else {
            None
        }
    }

    /// Deletes the instance at `idx`, given what came of removing its
    /// folder. Where the folder could not be removed the list is left as it
    /// is and the status line gives the reason; only after the folder is gone
    /// does the instance leave the list.
    pub fn remove_instance(&mut self, idx: usize, removal: Result<(), String>)
        requires
            idx < old(self)@.instances.len(),
        ensures
            final(self)@ == after_removal(
                old(self)@,
                idx as int,
                match removal {
                    Ok(_) => None,
                    Err(reason) => Some(reason@),
                },
            ),
            names_distinct(old(self)@.instances) ==> names_distinct(final(self)@.instances),
    {
        let ghost before = self@;
        match removal {
            Err(reason) => {
                self.status_msg = Some(join2("Delete error: ", reason.as_str()));
                assert(self@ =~= after_removal(before, idx as int, Some(reason@)));
            },
            Ok(_) => {
                self.instances.remove(idx);
                self.status_msg = Some(String::from_str("Instance deleted"));
                assert(self@ =~= after_removal(before, idx as int, None));
            },
        }
    }
}

} // verus!
