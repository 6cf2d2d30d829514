//! The configuration resolver: names the layers that a manifest is loaded
//! from, and lays the command line over what they gave.

use vstd::prelude::*;
use vstd::string::*;
use crate::cli::OffSetupCli;
use crate::manifest::OffSetup;

verus! {

/// The prefix of the environment variables that override the manifest file.
pub const ENVIRONMENT_PREFIX: &'static str = "OFFSETUP";

/// One of the places that a manifest is loaded from.
#[derive(Clone, Debug, PartialEq, Eq)]
pub enum Layer {
    /// The manifest file at this path, written in YAML.
    File { path: String },
    /// The variables of the environment whose names begin with this prefix
    /// and an underscore; the rest of a name is the key that its value
    /// overrides.
    Environment { prefix: String },
}

/// A layer as plain values.
pub enum LayerView {
    File { path: Seq<char> },
    Environment { prefix: Seq<char> },
}

impl DeepView for Layer {
    type V = LayerView;

    open spec fn deep_view(&self) -> LayerView {
        match self {
            Layer::File { path } => LayerView::File { path: path@ },
            Layer::Environment { prefix } => LayerView::Environment { prefix: prefix@ },
        }
    }
}

/// The layers of a manifest in rising order of precedence: the manifest file
/// that the command line names, then the environment.
pub open spec fn layers_of(cli: OffSetupCli) -> Seq<LayerView> {
    seq![
        LayerView::File { path: cli.config_file@ },
        LayerView::Environment { prefix: ENVIRONMENT_PREFIX@ },
    ]
}

impl OffSetup {
    /// Whether `self` is what the command line `cli` makes of the manifest
    /// `loaded`: the two flags are those of the command line; where the
    /// command line gives an install priority, every platform has it; and
    /// all the rest is as it was loaded.
    pub open spec fn is_resolved_from(self, loaded: OffSetup, cli: OffSetupCli) -> bool {
        &&& self.name == loaded.name
        &&& self.version == loaded.version
        &&& self.exposes == loaded.exposes
        &&& self.debug == Some(cli.debug)
        &&& self.dry_run == Some(cli.dry_run)
        &&& match (cli.install_priority, loaded.dependencies) {
            (Some(priorities), Some(before)) => {
                &&& self.dependencies matches Some(after)
                &&& after.is_prioritised(before, priorities.deep_view())
            },
            _ => self.dependencies == loaded.dependencies,
        }
    }

    /// The layers to load a manifest from, in rising order of precedence:
    /// what a later layer holds for a key replaces what an earlier layer
    /// holds for it. The command line comes on top of them all, by
    /// `with_cli`.
    pub fn layers(cli: &OffSetupCli) -> (layers: Vec<Layer>)
        ensures
            layers.deep_view() == layers_of(*cli),
    {
        let mut layers: Vec<Layer> = Vec::new();
        layers.push(Layer::File { path: cli.config_file.clone() });
        layers.push(Layer::Environment { prefix: ENVIRONMENT_PREFIX.to_owned() });
        assert(layers.deep_view() =~= layers_of(*cli));
        layers
    }

    /// Lays the command line over a manifest that was loaded from the
    /// manifest file and the environment.
    ///
    /// The flags `debug` and `dry_run` of the command line always win. An
    /// install priority given on the command line replaces that of every
    /// platform of the manifest, whatever the file gave for it. Nothing else
    /// changes, and a manifest whose lists are mappings stays so.
    ///
    /// The manifest is not validated here: who wants the rules on its sources
    /// checked calls `Source::validate` on them.
    pub fn with_cli(loaded: OffSetup, cli: OffSetupCli) -> (resolved: OffSetup)
        ensures
            resolved.is_resolved_from(loaded, cli),
            loaded.dependencies matches Some(before) ==> before.well_formed() ==> (
            resolved.dependencies matches Some(after) && after.well_formed()),
    {
        let mut resolved = loaded;
        match &cli.install_priority {
            Some(priorities) => {
                match &mut resolved.dependencies {
                    Some(dependencies) => {
                        dependencies.set_install_priority(priorities);
                    },
                    None => {},
                }
            },
            None => {},
        }
        resolved.debug = Some(cli.debug);
        resolved.dry_run = Some(cli.dry_run);
        resolved
    }
}

} // verus!
