use vstd::prelude::*;
use vstd::string::*;
use crate::text::same_text;

verus! {

/// A rendering backend that a canvas can be served by.
#[derive(Clone, Copy, Debug, PartialEq, Eq)]
pub enum RenderingEngine {
    /// The software rasteriser. It runs everywhere.
    Cpu,
    /// The hardware-accelerated backend. It needs a usable graphics device.
    Gpu,
}

/// What the host found out about the machine it runs on.
#[derive(Clone, Copy, Debug, PartialEq, Eq)]
pub struct Environment {
    /// Whether a graphics device can be used by this process.
    pub gpu_usable: bool,
}

/// A diagnostic of an engine in an environment.
#[derive(Clone, Copy, Debug, PartialEq, Eq)]
pub struct EngineStatus {
    /// The engine that the diagnostic is about.
    pub engine: RenderingEngine,
    /// Whether that engine can run in the environment.
    pub available: bool,
    /// Whether the engine is the software rasteriser standing in for a
    /// graphics device that cannot be used.
    pub fallback: bool,
}

impl RenderingEngine {
    /// The best engine that can run in `env`.
    pub open spec fn best_for(env: Environment) -> RenderingEngine {
        if env.gpu_usable {
            RenderingEngine::Gpu
        } else {
            RenderingEngine::Cpu
        }
    }

    /// Whether this engine can run in `env`.
    pub open spec fn usable_in(self, env: Environment) -> bool {
        match self {
            RenderingEngine::Cpu => true,
            RenderingEngine::Gpu => env.gpu_usable,
        }
    }

    /// The diagnostic of this engine in `env`.
    pub open spec fn status_in(self, env: Environment) -> EngineStatus {
        EngineStatus {
            engine: self,
            available: self.usable_in(env),
            fallback: self == RenderingEngine::Cpu && !env.gpu_usable,
        }
    }

    /// The name under which callers select this engine.
    pub open spec fn name(self) -> Seq<char> {
        match self {
            RenderingEngine::Cpu => "cpu"@,
            RenderingEngine::Gpu => "gpu"@,
        }
    }

    /// The engine that `name` stands for, if any.
    pub open spec fn named(name: Seq<char>) -> Option<RenderingEngine> {
        if name == "cpu"@ {
            Some(RenderingEngine::Cpu)
        } else if name == "gpu"@ {
            Some(RenderingEngine::Gpu)
        } else {
            None
        }
    }

    /// The best engine that can run in `env`: the graphics device where it
    /// can be used, the software rasteriser otherwise. It never fails.
    pub fn default(env: Environment) -> (engine: RenderingEngine)
        ensures
            engine == RenderingEngine::best_for(env),
            engine.usable_in(env),
    {
        if env.gpu_usable {
            RenderingEngine::Gpu
        } else {
            RenderingEngine::Cpu
        }
    }

    /// Whether this engine can run in `env`.
    pub fn selectable(&self, env: Environment) -> (usable: bool)
        ensures
            usable == self.usable_in(env),
    {
        match self {
            RenderingEngine::Cpu => true,
            RenderingEngine::Gpu => env.gpu_usable,
        }
    }

    /// The diagnostic of this engine in `env`.
    pub fn status(&self, env: Environment) -> (status: EngineStatus)
        ensures
            status == self.status_in(env),
    {
        let software: bool = match self {
            RenderingEngine::Cpu => true,
            RenderingEngine::Gpu => false,
        };
        EngineStatus {
            engine: *self,
            available: self.selectable(env),
            fallback: software && !env.gpu_usable,
        }
    }
}

impl EngineStatus {
    /// The diagnostic in words.
    pub open spec fn text(self) -> Seq<char> {
        match self.engine {
            RenderingEngine::Gpu => if self.available {
                "gpu: hardware-accelerated rendering is active"@
            } else {
                "gpu: no usable graphics device, rendering is unavailable"@
            },
            RenderingEngine::Cpu => if self.fallback {
                "cpu: software rendering is active, no usable graphics device was found"@
            } else {
                "cpu: software rendering is active"@
            },
        }
    }

    /// The diagnostic in words: the backend's name, then whether it is
    /// active, and a notice where the software rasteriser stands in for a
    /// graphics device.
    pub fn describe(&self) -> (words: String)
        ensures
            words@ == self.text(),
    {
        match self.engine {
            RenderingEngine::Gpu => if self.available {
                String::from_str("gpu: hardware-accelerated rendering is active")
            } else {
                String::from_str("gpu: no usable graphics device, rendering is unavailable")
            },
            RenderingEngine::Cpu => if self.fallback {
                String::from_str(
                    "cpu: software rendering is active, no usable graphics device was found",
                )
            } else {
                String::from_str("cpu: software rendering is active")
            },
        }
    }
}

/// Resolves a symbolic engine name: `"cpu"` and `"gpu"` are known, every
/// other name resolves to nothing.
pub fn to_engine(name: &str) -> (engine: Option<RenderingEngine>)
    ensures
        engine == RenderingEngine::named(name@),
{
    if same_text(name, "cpu") {
        Some(RenderingEngine::Cpu)
    } else if same_text(name, "gpu") {
        Some(RenderingEngine::Gpu)
    } else {
        None
    }
}

/// The symbolic name of an engine.
pub fn from_engine(engine: RenderingEngine) -> (name: String)
    ensures
        name@ == engine.name(),
{
    match engine {
        RenderingEngine::Cpu => String::from_str("cpu"),
        RenderingEngine::Gpu => String::from_str("gpu"),
    }
}

/// Every engine is found again under its own name.
pub proof fn name_round_trip(engine: RenderingEngine)
    ensures
        RenderingEngine::named(engine.name()) == Some(engine),
{
    reveal_strlit("cpu");
    reveal_strlit("gpu");
    assert("cpu"@[0] == 'c');
    assert("gpu"@[0] == 'g');
}

/// The engine chosen by default can always be selected.
pub proof fn default_is_selectable(env: Environment)
    ensures
        RenderingEngine::best_for(env).usable_in(env),
{
}

} // verus!
