//! Provisioning and teardown of a twin's container topology.
//!
//! Provisioning is a saga: one isolated network, then each component in
//! order — reserve a host port if the component is exposed, create and
//! start its container, persist the assigned name and port. The driver
//! performing the runtime calls reports each step's outcome here; the
//! saga decides what comes next. On a failure nothing is rolled back:
//! the saga stops, the twin's status stays what it was, and what was
//! already created is left for a later teardown. A twin is marked
//! `Running` only by [`ProvisionSaga::finish`], which exists only once
//! every component has succeeded.
//!
//! Teardown is a best-effort sweep: every provisioned container is
//! stopped and removed and its port released, whatever became of the
//! others; the network goes last, and the twin ends soft-deleted.

use vstd::prelude::*;

use crate::errors::AppError;
use crate::errors::ErrorKind;
use crate::names::container_name_bytes;
use crate::names::derive_container_name;
use crate::names::derive_network_name;
use crate::names::network_name_bytes;
use crate::text::ascii_view;
use crate::twin::DeploymentKind;
use crate::twin::Twin;
use crate::twin::TwinComponent;
use crate::twin::TwinStatus;
use crate::twin::clone_opt_string;
use vstd::utf8::encode_utf8;

verus! {

/// What the runtime driver must do for one component: create this
/// container on the twin's network and start it. A container port of
/// zero means the component declared none.
#[derive(Debug)]
pub struct ContainerRequest {
    pub container_name: String,
    pub image: String,
    pub alias: String,
    pub container_port: u16,
    pub wants_host_port: bool,
    pub network: String,
}

/// The derived container name of a component, as chars.
pub open spec fn comp_name_view(comp: TwinComponent, owner: Seq<char>, n: u16) -> Seq<char> {
    ascii_view(container_name_bytes(encode_utf8(comp.name@), encode_utf8(owner), n))
}

/// How a request describes a component.
pub open spec fn request_matches(
    q: ContainerRequest,
    comp: TwinComponent,
    owner: Seq<char>,
    n: u16,
    network: Seq<char>,
) -> bool {
    &&& q.container_name@ == comp_name_view(comp, owner, n)
    &&& q.image == comp.image_source
    &&& q.alias@ == (match comp.component_alias {
        Some(a) => a@,
        None => Seq::<char>::empty(),
    })
    &&& q.container_port == (match comp.container_port {
        Some(p) => p,
        None => 0u16,
    })
    &&& q.wants_host_port == comp.is_exposed
    &&& q.network@ == network
}

/// How a provisioned component record relates to what it was: the
/// derived container name and the granted host port are set, nothing
/// else moves.
pub open spec fn provisioned_component(
    c_new: TwinComponent,
    c_old: TwinComponent,
    name: Seq<char>,
    host_port: Option<u16>,
) -> bool {
    &&& c_new.container_name matches Some(nm) && nm@ == name
    &&& c_new.host_port == host_port
    &&& c_new.id == c_old.id
    &&& c_new.name == c_old.name
    &&& c_new.twin_id == c_old.twin_id
    &&& c_new.image_source == c_old.image_source
    &&& c_new.component_alias == c_old.component_alias
    &&& c_new.container_port == c_old.container_port
    &&& c_new.is_exposed == c_old.is_exposed
    &&& c_new.deleted_by == c_old.deleted_by
    &&& c_new.deleted_at == c_old.deleted_at
}

/// The provisioning saga of one twin.
#[derive(Debug)]
pub struct ProvisionSaga {
    twin: Twin,
    components: Vec<TwinComponent>,
    owner: String,
    disambiguator: u16,
    network_name: String,
    idx: usize,
    public_port: Option<u16>,
    failed: bool,
}

impl ProvisionSaga {
    pub closed spec fn twin(self) -> Twin {
        self.twin
    }

    pub closed spec fn components(self) -> Seq<TwinComponent> {
        self.components@
    }

    pub closed spec fn owner_view(self) -> Seq<char> {
        self.owner@
    }

    pub closed spec fn disamb(self) -> u16 {
        self.disambiguator
    }

    pub closed spec fn network_view(self) -> Seq<char> {
        self.network_name@
    }

    pub closed spec fn idx(self) -> int {
        self.idx as int
    }

    pub closed spec fn failed(self) -> bool {
        self.failed
    }

    pub closed spec fn public_port(self) -> Option<u16> {
        self.public_port
    }

    pub open spec fn wf(self) -> bool {
        &&& 0 <= self.idx() <= self.components().len()
        &&& self.twin().wf()
        &&& self.twin().status == TwinStatus::Stopped
        &&& (forall|j: int| 0 <= j < self.idx() ==> self.components()[j].container_name is Some)
        &&& self.network_view() == ascii_view(
            network_name_bytes(
                encode_utf8(self.twin().name@),
                encode_utf8(self.owner_view()),
                self.disamb(),
            ),
        )
    }

    /// Open the saga for a stopped twin. Only container-backed twins
    /// have a provisioner; any other kind is refused with
    /// `NotImplemented` before anything is created.
    pub fn new(twin: Twin, components: Vec<TwinComponent>, owner: String, disambiguator: u16)
        -> (r: Result<ProvisionSaga, AppError>)
        requires
            twin.wf(),
            twin.status == TwinStatus::Stopped,
        ensures
            r is Ok <==> twin.kind == DeploymentKind::Container,
            r matches Err(e) ==> e.kind() == ErrorKind::NotImplemented,
            r matches Ok(s) ==> {
                &&& s.wf()
                &&& s.twin() == twin
                &&& s.components() == components@
                &&& s.owner_view() == owner@
                &&& s.disamb() == disambiguator
                &&& s.idx() == 0
                &&& !s.failed()
                &&& s.public_port() is None
            },
    {
        if !matches!(twin.kind, DeploymentKind::Container) {
            return Err(
                AppError::new(ErrorKind::NotImplemented, "no provisioner for this model kind"),
            );
        }
        let network_name = derive_network_name(twin.name.as_str(), owner.as_str(), disambiguator);
        Ok(
            ProvisionSaga {
                twin,
                components,
                owner,
                disambiguator,
                network_name,
                idx: 0,
                public_port: None,
                failed: false,
            },
        )
    }

    /// The name of the isolated network the driver must create first.
    pub fn network(&self) -> (s: &String)
        ensures
            s@ == self.network_view(),
    {
        &self.network_name
    }

    /// What to do next: the request for the first unprovisioned
    /// component, or nothing once every component is done or the saga
    /// has failed.
    pub fn next_request(&self) -> (r: Option<ContainerRequest>)
        requires
            self.wf(),
        ensures
            r is Some <==> !self.failed() && self.idx() < self.components().len(),
            r matches Some(q) ==> request_matches(
                q,
                self.components()[self.idx()],
                self.owner_view(),
                self.disamb(),
                self.network_view(),
            ),
    {
        if self.failed || self.idx >= self.components.len() {
            return None;
        }
        let comp = &self.components[self.idx];
        let container_name = derive_container_name(
            comp.name.as_str(),
            self.owner.as_str(),
            self.disambiguator,
        );
        let alias = match &comp.component_alias {
            Some(a) => a.clone(),
            None => String::new(),
        };
        let container_port = match comp.container_port {
            Some(p) => p,
            None => 0,
        };
        Some(
            ContainerRequest {
                container_name,
                image: comp.image_source.clone(),
                alias,
                container_port,
                wants_host_port: comp.is_exposed,
                network: self.network_name.clone(),
            },
        )
    }

    /// The driver created and started the current component's container,
    /// with the given host port exactly if the component is exposed.
    /// The assigned name and port are persisted onto the component; an
    /// exposed component's port becomes the twin's public port.
    pub fn record_success(&mut self, host_port: Option<u16>)
        requires
            old(self).wf(),
            !old(self).failed(),
            old(self).idx() < old(self).components().len(),
            host_port is Some <==> old(self).components()[old(self).idx()].is_exposed,
        ensures
            final(self).wf(),
            final(self).twin() == old(self).twin(),
            final(self).owner_view() == old(self).owner_view(),
            final(self).disamb() == old(self).disamb(),
            final(self).network_view() == old(self).network_view(),
            final(self).idx() == old(self).idx() + 1,
            !final(self).failed(),
            final(self).components().len() == old(self).components().len(),
            provisioned_component(
                final(self).components()[old(self).idx()],
                old(self).components()[old(self).idx()],
                comp_name_view(
                    old(self).components()[old(self).idx()],
                    old(self).owner_view(),
                    old(self).disamb(),
                ),
                host_port,
            ),
            forall|j: int|
                0 <= j < old(self).components().len() && j != old(self).idx()
                    ==> final(self).components()[j] == old(self).components()[j],
            final(self).public_port() == (if host_port is Some {
                host_port
            } else {
                old(self).public_port()
            }),
    {
        let i = self.idx;
        let n = self.components.len();
        proof {
            assert(i < n);
        }
        let comp = &self.components[i];
        let container_name = derive_container_name(
            comp.name.as_str(),
            self.owner.as_str(),
            self.disambiguator,
        );
        let updated = TwinComponent {
            id: comp.id.clone(),
            name: comp.name.clone(),
            twin_id: comp.twin_id.clone(),
            image_source: comp.image_source.clone(),
            component_alias: clone_opt_string(&comp.component_alias),
            container_port: comp.container_port,
            host_port,
            is_exposed: comp.is_exposed,
            container_name: Some(container_name),
            deleted_by: clone_opt_string(&comp.deleted_by),
            deleted_at: comp.deleted_at,
        };
        self.components.set(i, updated);
        if host_port.is_some() {
            self.public_port = host_port;
        }
        self.idx = i + 1;
    }

    /// The driver's current step failed. The saga stops here; the twin's
    /// status is untouched and what was created stays for remediation.
    pub fn record_failure(&mut self)
        ensures
            final(self).twin() == old(self).twin(),
            final(self).components() == old(self).components(),
            final(self).owner_view() == old(self).owner_view(),
            final(self).disamb() == old(self).disamb(),
            final(self).network_view() == old(self).network_view(),
            final(self).idx() == old(self).idx(),
            final(self).public_port() == old(self).public_port(),
            final(self).failed(),
    {
        self.failed = true;
    }

    /// Every component has been provisioned.
    pub fn is_complete(&self) -> (b: bool)
        ensures
            b <==> !self.failed() && self.idx() == self.components().len(),
    {
        !self.failed && self.idx == self.components.len()
    }

    /// Close a fully provisioned saga: the twin — and only now — becomes
    /// `Running`, carrying the network name and, if any component was
    /// exposed, its public port. This is the only way a saga marks a
    /// twin `Running`, so a twin is never `Running` unless every one of
    /// its components started.
    pub fn finish(self) -> (r: (Twin, Vec<TwinComponent>))
        requires
            self.wf(),
            !self.failed(),
            self.idx() == self.components().len(),
        ensures
            r.0.status == TwinStatus::Running,
            r.0.network_name matches Some(nm) && nm@ == self.network_view(),
            r.0.twin_port == (if self.public_port() is Some {
                self.public_port()
            } else {
                self.twin().twin_port
            }),
            r.0.id == self.twin().id,
            r.0.name == self.twin().name,
            r.0.model_id == self.twin().model_id,
            r.0.policy_id == self.twin().policy_id,
            r.0.owner_id == self.twin().owner_id,
            r.0.kind == self.twin().kind,
            r.0.enable_data_sharing == self.twin().enable_data_sharing,
            r.0.deleted_by == self.twin().deleted_by,
            r.0.deleted_at == self.twin().deleted_at,
            r.0.wf(),
            r.1@ == self.components(),
            forall|j: int| 0 <= j < r.1@.len() ==> r.1@[j].container_name is Some,
    {
        let ProvisionSaga { mut twin, components, network_name, public_port, .. } = self;
        twin.status = TwinStatus::Running;
        twin.network_name = Some(network_name);
        if public_port.is_some() {
            twin.twin_port = public_port;
        }
        (twin, components)
    }

    /// Abandon a failed saga: the twin comes back exactly as it went in —
    /// in particular not `Running` — together with the components as far
    /// as they were provisioned, for a later teardown or retry.
    pub fn abandon(self) -> (r: (Twin, Vec<TwinComponent>))
        ensures
            r.0 == self.twin(),
            r.1@ == self.components(),
    {
        let ProvisionSaga { twin, components, .. } = self;
        (twin, components)
    }
}

/// One container a teardown must stop and remove, with the host port to
/// release, if one was reserved.
#[derive(Debug)]
pub struct ContainerTarget {
    pub container_name: String,
    pub host_port: Option<u16>,
}

/// The teardown targets of a component list: every component that got a
/// container, in order.
pub open spec fn targets_of(s: Seq<TwinComponent>) -> Seq<ContainerTarget>
    decreases s.len(),
{
    if s.len() == 0 {
        Seq::empty()
    } else {
        targets_of(s.drop_last()) + (match s.last().container_name {
            Some(nm) => seq![
                ContainerTarget { container_name: nm, host_port: s.last().host_port },
            ],
            None => Seq::<ContainerTarget>::empty(),
        })
    }
}

/// List what a teardown must sweep: each provisioned component's
/// container and reserved port, in component order. Components that
/// never got a container — a saga that failed before them — have
/// nothing to remove and are skipped.
pub fn teardown_targets(components: &Vec<TwinComponent>) -> (r: Vec<ContainerTarget>)
    ensures
        r@ == targets_of(components@),
{
    let mut out: Vec<ContainerTarget> = Vec::new();
    let n = components.len();
    let mut i: usize = 0;
    while i < n
        invariant
            n == components@.len(),
            i <= n,
            out@ == targets_of(components@.take(i as int)),
        decreases n - i,
    {
        proof {
            assert(components@.take(i + 1).drop_last() =~= components@.take(i as int));
            assert(components@.take(i + 1).last() == components@[i as int]);
        }
        let comp = &components[i];
        match &comp.container_name {
            Some(nm) => {
                out.push(
                    ContainerTarget { container_name: nm.clone(), host_port: comp.host_port },
                );
                proof {
                    assert(out@ =~= targets_of(components@.take(i + 1)));
                }
            },
            None => {
                proof {
                    assert(out@ =~= targets_of(components@.take(i + 1)));
                }
            },
        }
        i = i + 1;
    }
    proof {
        assert(components@.take(n as int) =~= components@);
    }
    out
}

/// The containers to start or stop for a twin, in component order.
/// Every component must have been provisioned; one without a container
/// cannot be started or stopped, and the whole plan is refused as a
/// provisioning gap rather than panicking on the missing name.
pub fn container_names(components: &Vec<TwinComponent>) -> (r: Result<Vec<String>, AppError>)
    ensures
        r is Ok <==> (forall|j: int|
            0 <= j < components@.len() ==> components@[j].container_name is Some),
        r matches Ok(names) ==> names@.len() == components@.len() && (forall|j: int|
            0 <= j < components@.len() ==> names@[j] == components@[j].container_name->0),
        r matches Err(e) ==> e.kind() == ErrorKind::ResourceProvisioningError,
{
    let mut names: Vec<String> = Vec::new();
    let n = components.len();
    let mut i: usize = 0;
    while i < n
        invariant
            n == components@.len(),
            i <= n,
            names@.len() == i,
            forall|j: int| 0 <= j < i ==> components@[j].container_name is Some,
            forall|j: int| 0 <= j < i ==> names@[j] == components@[j].container_name->0,
        decreases n - i,
    {
        match &components[i].container_name {
            Some(nm) => {
                names.push(nm.clone());
            },
            None => {
                return Err(
                    AppError::new(
                        ErrorKind::ResourceProvisioningError,
                        "component has no container",
                    ),
                );
            },
        }
        i = i + 1;
    }
    Ok(names)
}

/// Soft-delete a twin's components together with it: each record gets
/// the deletion actor and timestamp, and nothing else moves.
pub fn mark_components_deleted(components: Vec<TwinComponent>, actor: &String, now: u64) -> (r:
    Vec<TwinComponent>)
    ensures
        r@.len() == components@.len(),
        forall|j: int|
            0 <= j < components@.len() ==> r@[j] == (TwinComponent {
                deleted_by: Some(*actor),
                deleted_at: Some(now),
                ..components@[j]
            }),
{
    let ghost orig = components@;
    let mut rest = components;
    let mut out: Vec<TwinComponent> = Vec::new();
    while rest.len() > 0
        invariant
            out@.len() + rest@.len() == orig.len(),
            rest@ == orig.subrange(out@.len() as int, orig.len() as int),
            forall|j: int|
                0 <= j < out@.len() ==> out@[j] == (TwinComponent {
                    deleted_by: Some(*actor),
                    deleted_at: Some(now),
                    ..orig[j]
                }),
        decreases rest@.len(),
    {
        let mut c = rest.remove(0);
        c.mark_deleted(actor.clone(), now);
        out.push(c);
        proof {
            assert(rest@ =~= orig.subrange(out@.len() as int, orig.len() as int));
        }
    }
    out
}

} // verus!
