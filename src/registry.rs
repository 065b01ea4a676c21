//! The ordered chain of enabled modules, built once from the configuration.
use crate::codec::hex_decoded;
use crate::config::{Base64Mode, Config};
use crate::error::ByteProcError;
use crate::modules::{base64_transform, xor_cycle, Base64Module, ByteProcessor, Passthrough, XorModule};
use vstd::prelude::*;

verus! {

/// What one link of the chain does, as a mathematical value.
pub enum Stage {
    Identity,
    Xor(Seq<u8>),
    Base64 { encode: bool, padding: bool },
}

/// The output of one stage, or `None` where it rejects the input.
pub open spec fn stage_apply(s: Stage, x: Seq<u8>) -> Option<Seq<u8>> {
    match s {
        Stage::Identity => Some(x),
        Stage::Xor(k) => Some(xor_cycle(x, k)),
        Stage::Base64 { encode, padding } => base64_transform(encode, padding, x),
    }
}

/// `x` folded through the stages left to right; `None` as soon as one
/// stage rejects what it is given.
pub open spec fn run_chain(stages: Seq<Stage>, x: Seq<u8>) -> Option<Seq<u8>>
    decreases stages.len(),
{
    if stages.len() == 0 {
        Some(x)
    } else {
        match stage_apply(stages[0], x) {
            Some(y) => run_chain(stages.drop_first(), y),
            None => None,
        }
    }
}

/// Whether XOR is off, or on with a key that decodes to at least one byte.
pub open spec fn xor_settings_usable(cfg: Config) -> bool {
    !cfg.xor_enabled || (cfg.xor_key is Some && hex_decoded(cfg.xor_key->Some_0@) is Some
        && hex_decoded(cfg.xor_key->Some_0@)->Some_0.len() > 0)
}

/// The chain that a configuration asks for: identity first, then XOR if
/// enabled, then Base64 if enabled.
pub open spec fn configured_chain(cfg: Config) -> Seq<Stage> {
    seq![Stage::Identity] + (if cfg.xor_enabled {
        seq![Stage::Xor(hex_decoded(cfg.xor_key->Some_0@)->Some_0)]
    } else {
        Seq::empty()
    }) + (if cfg.base64_enabled {
        seq![
            Stage::Base64 {
                encode: cfg.base64_mode == Base64Mode::Encode,
                padding: cfg.base64_padding,
            },
        ]
    } else {
        Seq::empty()
    })
}

/// One enabled module.
enum Link {
    Passthrough(Passthrough),
    Xor(XorModule),
    Base64(Base64Module),
}

/// The identifier of a stage's module.
pub open spec fn stage_name(s: Stage) -> Seq<char> {
    match s {
        Stage::Identity => "passthrough"@,
        Stage::Xor(_) => "xor"@,
        Stage::Base64 { .. } => "base64"@,
    }
}

impl Link {
    fn name(&self) -> (r: &'static str)
        ensures
            r@ == stage_name(self.stage()),
    {
        match self {
            Link::Passthrough(m) => m.name(),
            Link::Xor(m) => m.name(),
            Link::Base64(m) => m.name(),
        }
    }

    spec fn stage(&self) -> Stage {
        match self {
            Link::Passthrough(_) => Stage::Identity,
            Link::Xor(m) => Stage::Xor(m.key()),
            Link::Base64(m) => Stage::Base64 { encode: m.encode, padding: m.padding },
        }
    }

    fn process(&self, input: &[u8]) -> (r: Result<Vec<u8>, ByteProcError>)
        ensures
            match r {
                Ok(out) => stage_apply(self.stage(), input@) == Some(out@),
                Err(e) => stage_apply(self.stage(), input@) is None && e is Module,
            },
    {
        match self {
            Link::Passthrough(m) => m.process(input),
            Link::Xor(m) => m.process(input),
            Link::Base64(m) => m.process(input),
        }
    }
}

/// The modules of one run, in the order in which they execute.
pub struct ModuleRegistry {
    modules: Vec<Link>,
}

impl ModuleRegistry {
    /// The chain, stage by stage, in execution order.
    pub closed spec fn stages(&self) -> Seq<Stage> {
        self.modules@.map_values(|m: Link| m.stage())
    }

    /// Builds the chain that `cfg` asks for, or fails as a whole.
    pub fn new(cfg: &Config) -> (r: Result<ModuleRegistry, ByteProcError>)
        ensures
            r is Ok <==> xor_settings_usable(*cfg),
            r matches Ok(reg) ==> reg.stages() == configured_chain(*cfg),
            cfg.xor_enabled && cfg.xor_key is None ==> r matches Err(
                ByteProcError::InvalidConfiguration(_),
            ),
            cfg.xor_enabled && cfg.xor_key is Some && hex_decoded(cfg.xor_key->Some_0@) is None
                ==> r matches Err(ByteProcError::HexDecode(_)),
            cfg.xor_enabled && cfg.xor_key is Some && hex_decoded(cfg.xor_key->Some_0@) is Some
                && hex_decoded(cfg.xor_key->Some_0@)->Some_0.len() == 0 ==> r matches Err(
                ByteProcError::InvalidConfiguration(_),
            ),
    {
        let mut modules: Vec<Link> = Vec::new();
        modules.push(Link::Passthrough(Passthrough));
        assert(modules@.map_values(|m: Link| m.stage()) =~= seq![Stage::Identity]);
        if cfg.xor_enabled {
            let key = match &cfg.xor_key {
                Some(k) => k,
                None => {
                    return Err(
                        ByteProcError::InvalidConfiguration(
                            String::from_str("xor_key must be set if xor_enabled"),
                        ),
                    );
                },
            };
            match XorModule::new(key.as_str(), cfg.xor_pad_byte()) {
                Ok(m) => modules.push(Link::Xor(m)),
                Err(e) => {
                    return Err(e);
                },
            }
        }
        assert(modules@.map_values(|m: Link| m.stage()) =~= seq![Stage::Identity] + (
        if cfg.xor_enabled {
            seq![Stage::Xor(hex_decoded(cfg.xor_key->Some_0@)->Some_0)]
        } else {
            Seq::empty()
        }));
        if cfg.base64_enabled {
            let m = Base64Module::new(cfg.base64_encode(), cfg.base64_padding);
            modules.push(Link::Base64(m));
        }
        let reg = ModuleRegistry { modules };
        assert(reg.stages() =~= configured_chain(*cfg));
        Ok(reg)
    }

    /// The module identifiers, in execution order.
    pub fn module_names(&self) -> (r: Vec<&'static str>)
        ensures
            r@.len() == self.stages().len(),
            forall|i: int| 0 <= i < r@.len() ==> r@[i]@ == stage_name(#[trigger] self.stages()[i]),
    {
        let mut names: Vec<&'static str> = Vec::new();
        let mut i: usize = 0;
        while i < self.modules.len()
            invariant
                i <= self.modules@.len(),
                names@.len() == i,
                forall|j: int| 0 <= j < i ==> names@[j]@ == stage_name(#[trigger] self.stages()[j]),
            decreases self.modules@.len() - i,
        {
            names.push(self.modules[i].name());
            i += 1;
        }
        names
    }

    /// Folds `data` through every module in chain order; the first error
    /// stops the chain and is returned.
    pub fn process_all(&self, data: Vec<u8>) -> (r: Result<Vec<u8>, ByteProcError>)
        ensures
            match r {
                Ok(out) => run_chain(self.stages(), data@) == Some(out@),
                Err(e) => run_chain(self.stages(), data@) is None && e is Module,
            },
    {
        let ghost stages = self.stages();
        let ghost target = run_chain(stages, data@);
        let mut cur = data;
        let mut i: usize = 0;
        assert(stages.skip(0) =~= stages);
        while i < self.modules.len()
            invariant
                stages == self.stages(),
                target == run_chain(stages, data@),
                stages.len() == self.modules@.len(),
                i <= stages.len(),
                run_chain(stages.skip(i as int), cur@) == target,
            decreases stages.len() - i,
        {
            let ghost rest = stages.skip(i as int);
            assert(rest[0] == self.modules@[i as int].stage());
            assert(rest.drop_first() =~= stages.skip(i + 1));
            match self.modules[i].process(cur.as_slice()) {
                Ok(next) => {
                    cur = next;
                },
                Err(e) => {
                    return Err(e);
                },
            }
            i += 1;
        }
        assert(stages.skip(i as int) =~= Seq::<Stage>::empty());
        Ok(cur)
    }
}

/// The settings that decide the chain.
pub open spec fn same_chain_settings(a: Config, b: Config) -> bool {
    &&& a.xor_enabled == b.xor_enabled
    &&& a.xor_key == b.xor_key
    &&& a.base64_enabled == b.base64_enabled
    &&& a.base64_mode == b.base64_mode
    &&& a.base64_padding == b.base64_padding
}

/// Two registries built from the same settings run the same stages in the
/// same order, and give the same result for the same input.
pub proof fn lemma_registries_agree(
    r1: &ModuleRegistry,
    r2: &ModuleRegistry,
    a: Config,
    b: Config,
    x: Seq<u8>,
)
    requires
        r1.stages() == configured_chain(a),
        r2.stages() == configured_chain(b),
        same_chain_settings(a, b),
    ensures
        r1.stages() == r2.stages(),
        run_chain(r1.stages(), x) == run_chain(r2.stages(), x),
{
}

/// Every configured chain starts with the identity stage.
pub proof fn lemma_identity_first(cfg: Config)
    ensures
        configured_chain(cfg).len() >= 1,
        configured_chain(cfg)[0] == Stage::Identity,
{
}

} // verus!
