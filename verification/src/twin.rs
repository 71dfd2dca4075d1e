//! Twins and their status machine.
//!
//! A twin is a live, per-subscriber instance of a published model, backed
//! by one or more containers. Its status moves only along
//! `Stopped -> Running`, `Running -> Stopped`, and `any -> Deleted`;
//! deletion is terminal and soft: the record keeps who deleted it and
//! when, and is never physically removed.

use vstd::prelude::*;

use crate::errors::AppError;
use crate::errors::ErrorKind;

verus! {

#[derive(Clone, Copy, Debug, PartialEq, Eq, Structural)]
pub enum TwinStatus {
    Stopped,
    Running,
    Deleted,
}

/// A lifecycle operation on a twin.
#[derive(Clone, Copy, Debug, PartialEq, Eq, Structural)]
pub enum TwinOp {
    Start,
    Stop,
    Decommission,
}

/// The status transition table: the only lawful moves are
/// `Stopped -start-> Running`, `Running -stop-> Stopped`, and
/// `{Stopped, Running} -decommission-> Deleted`.
pub open spec fn spec_transition(s: TwinStatus, op: TwinOp) -> Option<TwinStatus> {
    match op {
        TwinOp::Start => if s == TwinStatus::Stopped {
            Some(TwinStatus::Running)
        } else {
            None
        },
        TwinOp::Stop => if s == TwinStatus::Running {
            Some(TwinStatus::Stopped)
        } else {
            None
        },
        TwinOp::Decommission => if s != TwinStatus::Deleted {
            Some(TwinStatus::Deleted)
        } else {
            None
        },
    }
}

impl TwinStatus {
    /// Apply one lifecycle operation. Exactly the transitions of
    /// [`spec_transition`] succeed; every other attempt is an
    /// `InvalidState` error and yields no new status.
    pub fn apply_op(self, op: TwinOp) -> (r: Result<TwinStatus, AppError>)
        ensures
            r is Ok <==> spec_transition(self, op) is Some,
            r matches Ok(s) ==> spec_transition(self, op) == Some(s),
            r matches Err(e) ==> e.kind() == ErrorKind::InvalidState,
    {
        match op {
            TwinOp::Start => {
                if self == TwinStatus::Stopped {
                    Ok(TwinStatus::Running)
                } else {
                    Err(AppError::new(ErrorKind::InvalidState, "Twin is already running"))
                }
            },
            TwinOp::Stop => {
                if self == TwinStatus::Running {
                    Ok(TwinStatus::Stopped)
                } else {
                    Err(AppError::new(ErrorKind::InvalidState, "Twin is already stopped"))
                }
            },
            TwinOp::Decommission => {
                if self != TwinStatus::Deleted {
                    Ok(TwinStatus::Deleted)
                } else {
                    Err(AppError::new(ErrorKind::InvalidState, "Twin is already deleted"))
                }
            },
        }
    }

    /// The relational store's numeric encoding of a status.
    pub fn code(self) -> (c: i32)
        ensures
            c == self.spec_code(),
    {
        match self {
            TwinStatus::Stopped => 1,
            TwinStatus::Running => 2,
            TwinStatus::Deleted => 4,
        }
    }

    pub open spec fn spec_code(self) -> i32 {
        match self {
            TwinStatus::Stopped => 1,
            TwinStatus::Running => 2,
            TwinStatus::Deleted => 4,
        }
    }

    /// Decode the store's numeric status; unknown codes have no status.
    pub fn from_code(c: i32) -> (r: Option<TwinStatus>)
        ensures
            r == Self::spec_from_code(c),
    {
        if c == 1 {
            Some(TwinStatus::Stopped)
        } else if c == 2 {
            Some(TwinStatus::Running)
        } else if c == 4 {
            Some(TwinStatus::Deleted)
        } else {
            None
        }
    }

    pub open spec fn spec_from_code(c: i32) -> Option<TwinStatus> {
        if c == 1 {
            Some(TwinStatus::Stopped)
        } else if c == 2 {
            Some(TwinStatus::Running)
        } else if c == 4 {
            Some(TwinStatus::Deleted)
        } else {
            None
        }
    }

    /// The user-facing name of this status.
    pub fn label(self) -> (s: String)
        ensures
            self == TwinStatus::Stopped ==> s@ == "Stopped"@,
            self == TwinStatus::Running ==> s@ == "Running"@,
            self == TwinStatus::Deleted ==> s@ == "Deleted"@,
    {
        match self {
            TwinStatus::Stopped => "Stopped".to_owned(),
            TwinStatus::Running => "Running".to_owned(),
            TwinStatus::Deleted => "Deleted".to_owned(),
        }
    }
}

/// How a model's components are meant to run. Only container-backed
/// deployments have a provisioner; other kinds are refused with
/// `NotImplemented` instead of panicking.
#[derive(Clone, Copy, Debug, PartialEq, Eq, Structural)]
pub enum DeploymentKind {
    Container,
    Wasm,
}

impl DeploymentKind {
    /// Decode the store's numeric model type.
    pub fn from_code(c: i32) -> (r: DeploymentKind)
        ensures
            c == 1 ==> r == DeploymentKind::Container,
            c != 1 ==> r == DeploymentKind::Wasm,
    {
        if c == 1 {
            DeploymentKind::Container
        } else {
            DeploymentKind::Wasm
        }
    }
}

/// What a subscription needs to know of a published model.
#[derive(Debug)]
pub struct ModelInfo {
    pub id: String,
    pub name: String,
    pub kind: DeploymentKind,
    pub enable_data_sharing: bool,
}

/// One containerized service of a published model.
#[derive(Debug)]
pub struct ModelComponent {
    pub name: String,
    pub image_source: String,
    pub component_alias: Option<String>,
    pub container_port: Option<u16>,
    pub is_exposed: bool,
}

/// A live, per-subscriber instance of a published model.
#[derive(Debug)]
pub struct Twin {
    pub id: String,
    pub name: String,
    pub model_id: String,
    pub policy_id: Option<String>,
    pub owner_id: String,
    pub kind: DeploymentKind,
    pub status: TwinStatus,
    pub network_name: Option<String>,
    pub twin_port: Option<u16>,
    pub enable_data_sharing: bool,
    pub deleted_by: Option<String>,
    pub deleted_at: Option<u64>,
}

/// One containerized service belonging to a twin. The container name and
/// host port stay unset until provisioning assigns them; the host port is
/// only ever set for an exposed component.
#[derive(Debug)]
pub struct TwinComponent {
    pub id: String,
    pub name: String,
    pub twin_id: String,
    pub image_source: String,
    pub component_alias: Option<String>,
    pub container_port: Option<u16>,
    pub host_port: Option<u16>,
    pub is_exposed: bool,
    pub container_name: Option<String>,
    pub deleted_by: Option<String>,
    pub deleted_at: Option<u64>,
}

impl Twin {
    /// Soft deletion stays consistent: a twin is `Deleted` exactly when
    /// its deletion timestamp and actor are set.
    pub open spec fn wf(self) -> bool {
        &&& (self.status == TwinStatus::Deleted <==> self.deleted_at is Some)
        &&& (self.deleted_at is Some <==> self.deleted_by is Some)
    }

    /// The twin record created on subscription: stopped, not yet
    /// provisioned, sharing data only when the model allows it and the
    /// subscriber asked for it.
    pub fn subscription(
        twin_id: String,
        model: &ModelInfo,
        owner_id: String,
        policy_id: Option<String>,
        share_request: Option<bool>,
    ) -> (t: Twin)
        ensures
            t.wf(),
            t.id == twin_id,
            t.name@ == model.name@,
            t.model_id@ == model.id@,
            t.policy_id == policy_id,
            t.owner_id == owner_id,
            t.kind == model.kind,
            t.status == TwinStatus::Stopped,
            t.network_name is None,
            t.twin_port is None,
            t.enable_data_sharing == (model.enable_data_sharing && share_request == Some(true)),
            t.deleted_at is None,
            t.deleted_by is None,
    {
        let sharing = if model.enable_data_sharing {
            match share_request {
                Some(b) => b,
                None => false,
            }
        } else {
            false
        };
        Twin {
            id: twin_id,
            name: model.name.clone(),
            model_id: model.id.clone(),
            policy_id,
            owner_id,
            kind: model.kind,
            status: TwinStatus::Stopped,
            network_name: None,
            twin_port: None,
            enable_data_sharing: sharing,
            deleted_by: None,
            deleted_at: None,
        }
    }

    /// Start the twin's containers: lawful only from `Stopped`. On
    /// success only the status changes; on failure nothing changes.
    pub fn start(&mut self) -> (r: Result<(), AppError>)
        ensures
            r is Ok <==> old(self).status == TwinStatus::Stopped,
            r is Ok ==> *final(self) == (Twin { status: TwinStatus::Running, ..*old(self) }),
            r matches Err(e) ==> *final(self) == *old(self) && e.kind() == ErrorKind::InvalidState,
    {
        match self.status.apply_op(TwinOp::Start) {
            Ok(s) => {
                self.status = s;
                Ok(())
            },
            Err(e) => Err(e),
        }
    }

    /// Stop the twin's containers: lawful only from `Running`. On
    /// success only the status changes; on failure nothing changes.
    pub fn stop(&mut self) -> (r: Result<(), AppError>)
        ensures
            r is Ok <==> old(self).status == TwinStatus::Running,
            r is Ok ==> *final(self) == (Twin { status: TwinStatus::Stopped, ..*old(self) }),
            r matches Err(e) ==> *final(self) == *old(self) && e.kind() == ErrorKind::InvalidState,
    {
        match self.status.apply_op(TwinOp::Stop) {
            Ok(s) => {
                self.status = s;
                Ok(())
            },
            Err(e) => Err(e),
        }
    }

    /// Soft-delete the twin: terminal, lawful from any live status. On
    /// success the status becomes `Deleted` and the deletion actor and
    /// timestamp are recorded; nothing else changes.
    pub fn mark_deleted(&mut self, actor: String, now: u64) -> (r: Result<(), AppError>)
        requires
            old(self).wf(),
        ensures
            final(self).wf(),
            r is Ok <==> old(self).status != TwinStatus::Deleted,
            r is Ok ==> *final(self) == (Twin {
                status: TwinStatus::Deleted,
                deleted_by: Some(actor),
                deleted_at: Some(now),
                ..*old(self)
            }),
            r matches Err(e) ==> *final(self) == *old(self) && e.kind() == ErrorKind::InvalidState,
    {
        match self.status.apply_op(TwinOp::Decommission) {
            Ok(s) => {
                self.status = s;
                self.deleted_by = Some(actor);
                self.deleted_at = Some(now);
                Ok(())
            },
            Err(e) => Err(e),
        }
    }
}

impl TwinComponent {
    /// The component record created on subscription, before provisioning
    /// assigns a concrete container name and host port.
    pub fn subscription(comp: &ModelComponent, component_id: String, twin_id: String) -> (c:
        TwinComponent)
        ensures
            c.id == component_id,
            c.name@ == comp.name@,
            c.twin_id == twin_id,
            c.image_source@ == comp.image_source@,
            c.component_alias == comp.component_alias,
            c.container_port == comp.container_port,
            c.host_port is None,
            c.is_exposed == comp.is_exposed,
            c.container_name is None,
            c.deleted_at is None,
            c.deleted_by is None,
    {
        TwinComponent {
            id: component_id,
            name: comp.name.clone(),
            twin_id,
            image_source: comp.image_source.clone(),
            component_alias: clone_opt_string(&comp.component_alias),
            container_port: comp.container_port,
            host_port: None,
            is_exposed: comp.is_exposed,
            container_name: None,
            deleted_by: None,
            deleted_at: None,
        }
    }

    /// Soft-delete the component together with its twin.
    pub fn mark_deleted(&mut self, actor: String, now: u64)
        ensures
            *final(self) == (TwinComponent {
                deleted_by: Some(actor),
                deleted_at: Some(now),
                ..*old(self)
            }),
    {
        self.deleted_by = Some(actor);
        self.deleted_at = Some(now);
    }
}

/// Clone an optional string, keeping its view.
pub fn clone_opt_string(s: &Option<String>) -> (r: Option<String>)
    ensures
        r == *s,
{
    match s {
        Some(v) => Some(v.clone()),
        None => None,
    }
}

} // verus!
