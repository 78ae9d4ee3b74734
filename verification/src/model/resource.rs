//! Resource demand, capacity and usage.

use vstd::prelude::*;

use super::name_map::NameMap;
use crate::text::copy_texts;
use crate::text::same_texts;
use crate::text::texts;

verus! {

/// Resource units that a task must hold for its entire execution.
#[derive(Debug)]
pub struct ResourceRequest {
    /// Number of CPU concurrency slots.
    pub cpu_slots: u32,
    /// Number of distinct GPU devices requested.
    pub gpu_count: u32,
    /// Minimum labels required from every assigned GPU.
    pub gpu_labels: Vec<String>,
    /// Named exclusive integer resources such as memory or licenses.
    pub custom: NameMap<u64>,
}

/// Content of a [`ResourceRequest`].
#[verifier::ext_equal]
pub struct DemandModel {
    pub cpu_slots: u32,
    pub gpu_count: u32,
    pub gpu_labels: Seq<Seq<char>>,
    pub custom: Seq<(Seq<char>, u64)>,
}

impl View for ResourceRequest {
    type V = DemandModel;

    open spec fn view(&self) -> DemandModel {
        DemandModel {
            cpu_slots: self.cpu_slots,
            gpu_count: self.gpu_count,
            gpu_labels: texts(self.gpu_labels@),
            custom: self.custom@,
        }
    }
}

/// A demand for nothing.
pub open spec fn no_demand() -> DemandModel {
    DemandModel {
        cpu_slots: 0,
        gpu_count: 0,
        gpu_labels: Seq::empty(),
        custom: Seq::empty(),
    }
}

impl ResourceRequest {
    /// Whether both requests ask for the same resources.
    pub fn same(&self, other: &Self) -> (same: bool)
        ensures
            same == (self@ == other@),
    {
        self.cpu_slots == other.cpu_slots && self.gpu_count == other.gpu_count && same_texts(
            &self.gpu_labels,
            &other.gpu_labels,
        ) && self.custom.same_map(&other.custom)
    }
}

impl Clone for ResourceRequest {
    fn clone(&self) -> (res: Self)
        ensures
            res@ == self@,
    {
        ResourceRequest {
            cpu_slots: self.cpu_slots,
            gpu_count: self.gpu_count,
            gpu_labels: copy_texts(&self.gpu_labels),
            custom: self.custom.clone(),
        }
    }
}

impl Default for ResourceRequest {
    fn default() -> (res: Self)
        ensures
            res@ == no_demand(),
    {
        let res = ResourceRequest {
            cpu_slots: 0,
            gpu_count: 0,
            gpu_labels: Vec::new(),
            custom: NameMap::new(),
        };
        proof {
            assert(res@ =~= no_demand());
        }
        res
    }
}

/// Resource limits available to this service instance.
#[derive(Debug)]
pub struct ResourceCapacity {
    /// CPU concurrency slots available to tasks.
    pub cpu_slots: u32,
    /// GPU device identifiers and their labels.
    pub gpus: NameMap<Vec<String>>,
    /// Named integer resource limits.
    pub custom: NameMap<u64>,
}

/// Content of a [`ResourceCapacity`].
#[verifier::ext_equal]
pub struct CapacityModel {
    pub cpu_slots: u32,
    pub gpus: Seq<(Seq<char>, Seq<Seq<char>>)>,
    pub custom: Seq<(Seq<char>, u64)>,
}

impl View for ResourceCapacity {
    type V = CapacityModel;

    open spec fn view(&self) -> CapacityModel {
        CapacityModel {
            cpu_slots: self.cpu_slots,
            gpus: self.gpus@,
            custom: self.custom@,
        }
    }
}

impl Clone for ResourceCapacity {
    fn clone(&self) -> (res: Self)
        ensures
            res@ == self@,
    {
        ResourceCapacity {
            cpu_slots: self.cpu_slots,
            gpus: self.gpus.clone(),
            custom: self.custom.clone(),
        }
    }
}

impl Default for ResourceCapacity {
    fn default() -> (res: Self)
        ensures
            res@ == (CapacityModel { cpu_slots: 0, gpus: Seq::empty(), custom: Seq::empty() }),
    {
        ResourceCapacity { cpu_slots: 0, gpus: NameMap::new(), custom: NameMap::new() }
    }
}

/// Current resource usage exposed for health and metrics reporting.
#[derive(Debug)]
pub struct ResourceSnapshot {
    /// Configured resource capacity.
    pub capacity: ResourceCapacity,
    /// Currently reserved CPU slots.
    pub used_cpu_slots: u32,
    /// Currently reserved GPU device identifiers.
    pub used_gpus: Vec<String>,
    /// Currently reserved custom resources.
    pub used_custom: NameMap<u64>,
}

/// Content of a [`ResourceSnapshot`].
#[verifier::ext_equal]
pub struct SnapshotModel {
    pub capacity: CapacityModel,
    pub used_cpu_slots: u32,
    pub used_gpus: Seq<Seq<char>>,
    pub used_custom: Seq<(Seq<char>, u64)>,
}

impl View for ResourceSnapshot {
    type V = SnapshotModel;

    open spec fn view(&self) -> SnapshotModel {
        SnapshotModel {
            capacity: self.capacity@,
            used_cpu_slots: self.used_cpu_slots,
            used_gpus: texts(self.used_gpus@),
            used_custom: self.used_custom@,
        }
    }
}

impl Clone for ResourceSnapshot {
    fn clone(&self) -> (res: Self)
        ensures
            res@ == self@,
    {
        ResourceSnapshot {
            capacity: self.capacity.clone(),
            used_cpu_slots: self.used_cpu_slots,
            used_gpus: copy_texts(&self.used_gpus),
            used_custom: self.used_custom.clone(),
        }
    }
}

} // verus!
