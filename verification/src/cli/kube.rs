//! The "kube" resource as its raw input arrives: the fields of a `play`
//! invocation, and their normalization into the canonical quadlet model.

use vstd::prelude::*;

use crate::file::File;
use crate::quadlet;
use crate::quadlet::{base_name, spec_base_name};

verus! {

/// The raw fields collected for playing a Kubernetes YAML manifest, exactly
/// as the caller gathered them: repeated values keep their order and
/// multiplicity, absent options stay absent.
#[derive(Debug, Clone, PartialEq)]
pub struct Play {
    pub configmap: Vec<String>,
    pub log_driver: Option<String>,
    pub network: Vec<String>,
    pub publish: Vec<String>,
    pub userns: Option<String>,
    pub file: File,
}

/// The kube resource kind's subcommands; `Play` runs a Kubernetes YAML
/// manifest.
#[derive(Debug, Clone, PartialEq)]
pub enum Kube {
    Play { play: Play },
}

impl Kube {
    /// The manifest file reference the command names.
    pub open spec fn spec_file(&self) -> &File {
        match self {
            Kube::Play { play } => &play.file,
        }
    }

    /// The name that seeds the output file's base name: the file
    /// reference's derived name, or `pod` when none can be derived. Never
    /// empty.
    pub fn name<'a>(&'a self) -> (r: &'a str)
        ensures
            r@ == spec_base_name(self.spec_file()),
            r@.len() > 0,
    {
        match self {
            Kube::Play { play } => base_name(&play.file),
        }
    }
}

impl From<Play> for quadlet::Kube {
    /// Normalize the collected fields into the canonical model: a pure
    /// field-for-field move with no validation and no reordering.
    fn from(value: Play) -> (r: quadlet::Kube) {
        quadlet::Kube {
            config_map: value.configmap,
            log_driver: value.log_driver,
            network: value.network,
            publish_port: value.publish,
            user_ns: value.userns,
            file: value.file,
        }
    }
}

impl vstd::std_specs::convert::FromSpecImpl<Play> for quadlet::Kube {
    open spec fn obeys_from_spec() -> bool {
        true
    }

    open spec fn from_spec(value: Play) -> quadlet::Kube {
        quadlet::Kube {
            config_map: value.configmap,
            log_driver: value.log_driver,
            network: value.network,
            publish_port: value.publish,
            user_ns: value.userns,
            file: value.file,
        }
    }
}

impl From<Kube> for quadlet::Kube {
    /// Normalize the command into the canonical model of its one kind.
    fn from(value: Kube) -> (r: quadlet::Kube) {
        match value {
            Kube::Play { play } => quadlet::Kube::from(play),
        }
    }
}

impl vstd::std_specs::convert::FromSpecImpl<Kube> for quadlet::Kube {
    open spec fn obeys_from_spec() -> bool {
        true
    }

    open spec fn from_spec(value: Kube) -> quadlet::Kube {
        match value {
            Kube::Play { play } => <quadlet::Kube as vstd::std_specs::convert::FromSpec<
                Play,
            >>::from_spec(play),
        }
    }
}

impl From<Kube> for quadlet::Resource {
    /// Normalize the command and wrap the model in the resource envelope.
    fn from(value: Kube) -> (r: quadlet::Resource) {
        quadlet::Resource::Kube(quadlet::Kube::from(value))
    }
}

impl vstd::std_specs::convert::FromSpecImpl<Kube> for quadlet::Resource {
    open spec fn obeys_from_spec() -> bool {
        true
    }

    open spec fn from_spec(value: Kube) -> quadlet::Resource {
        quadlet::Resource::Kube(
            <quadlet::Kube as vstd::std_specs::convert::FromSpec<Kube>>::from_spec(value),
        )
    }
}

} // verus!
