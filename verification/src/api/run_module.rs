//! POST `/v1/services/run-module`: the order of the steps of running a module
//! from storage. The module is loaded, its files written, the requested
//! networks checked, the service created and joined to those networks, then
//! started; the first step that fails decides the answer. The storage, the
//! file system and the service manager do their work outside; each reports
//! back with an event, and the next step is decided here.

use vstd::prelude::*;

use crate::error::{cat3, DaemonError};
use crate::network::manager::{name_taken, NetworkManager};
use crate::policy::model::names_view;

use super::response::{is_error, ApiResponse};
use super::services::{
    error_response, find_missing_network, join_networks, service_error, CreateServiceResponse,
};

verus! {

/// How far running a module has got.
#[derive(Debug, Clone, Copy, PartialEq, Eq, Structural)]
pub enum RunModuleStage {
    /// Waiting for the module to be loaded from storage.
    Loading,
    /// Waiting for the module's files to be written.
    Writing,
    /// Waiting for the service to be created.
    Creating,
    /// Waiting for the service to be started.
    Starting,
    /// Answered.
    Finished,
}

/// Running a module: the stage reached and what is known so far.
pub struct RunModule {
    /// The stage reached.
    pub stage: RunModuleStage,
    /// The module reference.
    pub reference: String,
    /// The networks to join, by name.
    pub networks: Vec<String>,
    /// The service's name, from the module's Fabrickfile, once loaded.
    pub service_name: String,
    /// The service's ID, once created.
    pub service_id: String,
}

/// What the outside work reports.
pub enum RunModuleEvent {
    /// The module was loaded; its Fabrickfile names the service.
    ModuleLoaded { service_name: String },
    /// The module could not be loaded.
    ModuleLoadFailed { message: String },
    /// The module's files were written.
    FilesWritten,
    /// Writing the module's files failed.
    FilesFailed { error: DaemonError },
    /// The service was created with this ID.
    ServiceCreated { id: String },
    /// The service was started.
    ServiceStarted,
    /// Creating or starting the service failed.
    ServiceFailed { error: DaemonError },
}

/// What to do next.
pub enum RunModuleAction {
    /// Load the module with this reference from storage.
    LoadModule { reference: String },
    /// Write the module's files and build the service's configuration.
    WriteFiles,
    /// Create the service.
    CreateService,
    /// Start the service with this ID.
    StartService { id: String },
    /// Answer the request.
    Respond { response: ApiResponse<CreateServiceResponse> },
    /// Nothing: the event does not belong to the stage reached.
    Wait,
}

/// The network manager was left as it was.
pub open spec fn unchanged(before: NetworkManager, after: NetworkManager) -> bool {
    &&& after.networks() == before.networks()
    &&& after.memberships() == before.memberships()
    &&& after.reg() == before.reg()
}

/// The answer is the error answer of the service endpoints for `e`.
pub open spec fn answers_error(a: RunModuleAction, e: DaemonError) -> bool {
    a matches RunModuleAction::Respond { response } && is_error(response, service_error(e).0, service_error(e).1)
}

/// Every requested network exists.
pub open spec fn all_networks_exist(nm: NetworkManager, names: Seq<String>) -> bool {
    forall|i: int| 0 <= i < names.len() ==> #[trigger] name_taken(nm.networks(), names[i]@)
}

/// `after` is `before` with the service joined to every requested network
/// that exists, and no other change of membership.
pub open spec fn joined_requested(before: NetworkManager, after: NetworkManager, names: Seq<String>, id: Seq<char>) -> bool {
    &&& after.networks().dom() == before.networks().dom()
    &&& forall|k: Seq<char>| #[trigger] after.networks().contains_key(k) ==> {
        let b = before.networks()[k];
        let a = after.networks()[k];
        &&& a.name == b.name
        &&& a.members == b.members || (a.members == b.members.insert(id) && names_view(names).contains(b.name))
    }
    &&& forall|i: int| 0 <= i < names.len() && #[trigger] name_taken(before.networks(), names[i]@) ==>
        exists|k: Seq<char>| #[trigger] after.networks().contains_key(k)
            && after.networks()[k].name == names[i]@
            && after.networks()[k].members.contains(id)
}

impl RunModule {
    /// Starts running the module with this reference: the module is loaded
    /// first.
    pub fn begin(reference: String, networks: Vec<String>) -> (r: (RunModule, RunModuleAction))
        ensures
            r.0.stage == RunModuleStage::Loading,
            r.0.reference == reference,
            r.0.networks == networks,
            r.1 matches RunModuleAction::LoadModule { reference: t } && t@ == reference@,
    {
        let t = reference.clone();
        (
            RunModule { stage: RunModuleStage::Loading, reference, networks, service_name: String::new(), service_id: String::new() },
            RunModuleAction::LoadModule { reference: t },
        )
    }

    /// The next step after an event. The requested networks are checked
    /// once the files are written and before the service is created: a
    /// missing one is answered with `NetworkNotFound` and nothing is
    /// created. Once created, the service joins the requested networks,
    /// then is started; the answer names the service.
    pub fn step(self, event: RunModuleEvent, nm: &mut NetworkManager) -> (r: (RunModule, RunModuleAction))
        requires
            old(nm).wf(),
        ensures
            final(nm).wf(),
            r.0.reference == self.reference,
            r.0.networks == self.networks,
            match (self.stage, event) {
                (RunModuleStage::Loading, RunModuleEvent::ModuleLoaded { service_name }) => {
                    &&& r.0.stage == RunModuleStage::Writing
                    &&& r.0.service_name == service_name
                    &&& r.1 is WriteFiles
                    &&& unchanged(*old(nm), *final(nm))
                },
                (RunModuleStage::Loading, RunModuleEvent::ModuleLoadFailed { message }) => {
                    &&& r.0.stage == RunModuleStage::Finished
                    &&& r.1 matches RunModuleAction::Respond { response } && is_error(
                        response,
                        "MODULE_NOT_FOUND"@,
                        "Module not found: "@ + self.reference@ + ": "@ + message@,
                    )
                    &&& unchanged(*old(nm), *final(nm))
                },
                (RunModuleStage::Writing, RunModuleEvent::FilesWritten) => {
                    &&& unchanged(*old(nm), *final(nm))
                    &&& all_networks_exist(*old(nm), self.networks@) ==> {
                        &&& r.0.stage == RunModuleStage::Creating
                        &&& r.0.service_name == self.service_name
                        &&& r.1 is CreateService
                    }
                    &&& !all_networks_exist(*old(nm), self.networks@) ==> {
                        &&& r.0.stage == RunModuleStage::Finished
                        &&& exists|i: int| 0 <= i < self.networks@.len()
                            && !name_taken(old(nm).networks(), self.networks@[i]@)
                            && (forall|j: int| 0 <= j < i ==> #[trigger] name_taken(old(nm).networks(), self.networks@[j]@))
                            && (r.1 matches RunModuleAction::Respond { response } && is_error(
                                response,
                                service_error(DaemonError::NetworkNotFound(self.networks@[i])).0,
                                service_error(DaemonError::NetworkNotFound(self.networks@[i])).1,
                            ))
                    }
                },
                (RunModuleStage::Writing, RunModuleEvent::FilesFailed { error }) => {
                    &&& r.0.stage == RunModuleStage::Finished
                    &&& answers_error(r.1, error)
                    &&& unchanged(*old(nm), *final(nm))
                },
                (RunModuleStage::Creating, RunModuleEvent::ServiceCreated { id }) => {
                    &&& r.0.stage == RunModuleStage::Starting
                    &&& r.0.service_id == id
                    &&& r.0.service_name == self.service_name
                    &&& r.1 matches RunModuleAction::StartService { id: s } && s@ == id@
                    &&& joined_requested(*old(nm), *final(nm), self.networks@, id@)
                },
                (RunModuleStage::Starting, RunModuleEvent::ServiceStarted) => {
                    &&& r.0.stage == RunModuleStage::Finished
                    &&& r.1 matches RunModuleAction::Respond { response }
                        && response matches ApiResponse::Success { data }
                        && data.id@ == self.service_id@
                        && data.name@ == self.service_name@
                    &&& unchanged(*old(nm), *final(nm))
                },
                (RunModuleStage::Creating, RunModuleEvent::ServiceFailed { error }) => {
                    &&& r.0.stage == RunModuleStage::Finished
                    &&& answers_error(r.1, error)
                    &&& unchanged(*old(nm), *final(nm))
                },
                (RunModuleStage::Starting, RunModuleEvent::ServiceFailed { error }) => {
                    &&& r.0.stage == RunModuleStage::Finished
                    &&& answers_error(r.1, error)
                    &&& unchanged(*old(nm), *final(nm))
                },
                _ => {
                    &&& r.0 == self
                    &&& r.1 is Wait
                    &&& unchanged(*old(nm), *final(nm))
                },
            },
    {
        let mut state = self;
        match (state.stage, event) {
            (RunModuleStage::Loading, RunModuleEvent::ModuleLoaded { service_name }) => {
                state.stage = RunModuleStage::Writing;
                state.service_name = service_name;
                (state, RunModuleAction::WriteFiles)
            },
            (RunModuleStage::Loading, RunModuleEvent::ModuleLoadFailed { message }) => {
                let reference = cat3(state.reference.as_str(), ": ", message.as_str());
                proof {
                    let a = "Module not found: "@;
                    assert(a + reference@ =~= a + state.reference@ + ": "@ + message@);
                }
                let response = error_response(&DaemonError::ModuleNotFound { reference });
                state.stage = RunModuleStage::Finished;
                (state, RunModuleAction::Respond { response })
            },
            (RunModuleStage::Writing, RunModuleEvent::FilesWritten) => {
                match find_missing_network(nm, &state.networks) {
                    Some(name) => {
                        let response = error_response(&DaemonError::NetworkNotFound(name));
                        state.stage = RunModuleStage::Finished;
                        (state, RunModuleAction::Respond { response })
                    },
                    None => {
                        state.stage = RunModuleStage::Creating;
                        (state, RunModuleAction::CreateService)
                    },
                }
            },
            (RunModuleStage::Writing, RunModuleEvent::FilesFailed { error }) => {
                let response = error_response(&error);
                state.stage = RunModuleStage::Finished;
                (state, RunModuleAction::Respond { response })
            },
            (RunModuleStage::Creating, RunModuleEvent::ServiceCreated { id }) => {
                let joined = join_networks(nm, &state.networks, id.as_str(), state.service_name.as_str());
                proof {
                    assert(joined is Ok);
                }
                let start = id.clone();
                state.stage = RunModuleStage::Starting;
                state.service_id = id;
                (state, RunModuleAction::StartService { id: start })
            },
            (RunModuleStage::Starting, RunModuleEvent::ServiceStarted) => {
                let data = CreateServiceResponse { id: state.service_id.clone(), name: state.service_name.clone() };
                state.stage = RunModuleStage::Finished;
                (state, RunModuleAction::Respond { response: ApiResponse::success(data) })
            },
            (RunModuleStage::Creating, RunModuleEvent::ServiceFailed { error }) => {
                let response = error_response(&error);
                state.stage = RunModuleStage::Finished;
                (state, RunModuleAction::Respond { response })
            },
            (RunModuleStage::Starting, RunModuleEvent::ServiceFailed { error }) => {
                let response = error_response(&error);
                state.stage = RunModuleStage::Finished;
                (state, RunModuleAction::Respond { response })
            },
            (_, _) => (state, RunModuleAction::Wait),
        }
    }
}

} // verus!
