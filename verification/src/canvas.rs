use vstd::prelude::*;
use crate::engine::{from_engine, to_engine, Environment, RenderingEngine};
pub use crate::export::{save, saveSync, toBuffer, toBufferSync};
use crate::values::{Scalar, DEFAULT_HEIGHT_BITS, DEFAULT_WIDTH_BITS};

verus! {

/// A drawable surface: its size, and the engine that serves it once one has
/// been asked for or installed.
#[derive(Debug, PartialEq, Eq)]
pub struct Canvas {
    pub width: Scalar,
    pub height: Scalar,
    engine: Option<RenderingEngine>,
}

/// What a canvas is: its size, and the engine it holds, if it holds one yet.
pub struct CanvasState {
    pub width: Scalar,
    pub height: Scalar,
    pub engine: Option<RenderingEngine>,
}

impl CanvasState {
    /// The engine that the canvas answers with in `env`: the one it holds,
    /// or the best one for `env` where it holds none.
    pub open spec fn resolved(self, env: Environment) -> RenderingEngine {
        match self.engine {
            Some(engine) => engine,
            None => RenderingEngine::best_for(env),
        }
    }

    /// The canvas after it was asked for its engine in `env`.
    pub open spec fn materialized(self, env: Environment) -> CanvasState {
        CanvasState { engine: Some(self.resolved(env)), ..self }
    }

    /// Whether a request for the engine called `name` is honoured in `env`:
    /// the name has to be given, known, and the engine usable.
    pub open spec fn accepts(name: Option<Seq<char>>, env: Environment) -> bool {
        match name {
            Some(name) => match RenderingEngine::named(name) {
                Some(engine) => engine.usable_in(env),
                None => false,
            },
            None => false,
        }
    }

    /// The canvas after a request for the engine called `name` in `env`.
    pub open spec fn requested(self, name: Option<Seq<char>>, env: Environment) -> CanvasState {
        if CanvasState::accepts(name, env) {
            CanvasState { engine: RenderingEngine::named(name.unwrap()), ..self }
        } else {
            self
        }
    }
}

impl View for Canvas {
    type V = CanvasState;

    closed spec fn view(&self) -> CanvasState {
        CanvasState { width: self.width, height: self.height, engine: self.engine }
    }
}

impl Clone for Canvas {
    /// A second canvas of the same size that holds the same engine.
    fn clone(&self) -> (copy: Canvas)
        ensures
            copy@ == self@,
    {
        Canvas { width: self.width, height: self.height, engine: self.engine }
    }
}

/// The characters of an optional name.
pub open spec fn name_view(name: Option<&str>) -> Option<Seq<char>> {
    match name {
        Some(name) => Some(name@),
        None => None,
    }
}

impl Canvas {
    /// A canvas of 300 by 150 that holds no engine yet.
    pub fn new() -> (canvas: Canvas)
        ensures
            canvas@.width.bits == DEFAULT_WIDTH_BITS,
            canvas@.height.bits == DEFAULT_HEIGHT_BITS,
            canvas@.engine.is_none(),
    {
        Canvas {
            width: Scalar { bits: DEFAULT_WIDTH_BITS },
            height: Scalar { bits: DEFAULT_HEIGHT_BITS },
            engine: None,
        }
    }

    /// The engine of the canvas. The first call picks the best engine for
    /// `env` and keeps it; every later call answers with the engine kept,
    /// whatever the environment then is.
    pub fn engine(&mut self, env: Environment) -> (engine: RenderingEngine)
        ensures
            engine == old(self)@.resolved(env),
            final(self)@ == old(self)@.materialized(env),
    {
        match self.engine {
            Some(engine) => engine,
            None => {
                let engine = RenderingEngine::default(env);
                self.engine = Some(engine);
                engine
            },
        }
    }
}

/// A fresh canvas, as `Canvas::new` makes it.
pub fn new() -> (canvas: Canvas)
    ensures
        canvas@.width.bits == DEFAULT_WIDTH_BITS,
        canvas@.height.bits == DEFAULT_HEIGHT_BITS,
        canvas@.engine.is_none(),
{
    Canvas::new()
}

/// The width of the canvas.
pub fn get_width(canvas: &Canvas) -> (width: Scalar)
    ensures
        width == canvas@.width,
{
    canvas.width
}

/// The height of the canvas.
pub fn get_height(canvas: &Canvas) -> (height: Scalar)
    ensures
        height == canvas@.height,
{
    canvas.height
}

/// Sets the width. Any number is taken; height and engine are left alone.
pub fn set_width(canvas: &mut Canvas, width: Scalar)
    ensures
        final(canvas)@ == (CanvasState { width: width, ..old(canvas)@ }),
{
    canvas.width = width;
}

/// Sets the height. Any number is taken; width and engine are left alone.
pub fn set_height(canvas: &mut Canvas, height: Scalar)
    ensures
        final(canvas)@ == (CanvasState { height: height, ..old(canvas)@ }),
{
    canvas.height = height;
}

/// The name of the canvas's engine. Picks and keeps an engine where the
/// canvas holds none, as `Canvas::engine` does.
pub fn get_engine(canvas: &mut Canvas, env: Environment) -> (name: String)
    ensures
        name@ == old(canvas)@.resolved(env).name(),
        final(canvas)@ == old(canvas)@.materialized(env),
{
    from_engine(canvas.engine(env))
}

/// Asks for the engine called `name`. The engine is installed where the name
/// is given, is known and names an engine that can run in `env`. In every
/// other case the canvas stays exactly as it was, and no error is raised.
pub fn set_engine(canvas: &mut Canvas, name: Option<&str>, env: Environment)
    ensures
        final(canvas)@ == old(canvas)@.requested(name_view(name), env),
{
    match name {
        Some(name) => match to_engine(name) {
            Some(engine) => {
                if engine.selectable(env) {
                    canvas.engine = Some(engine);
                }
            },
            None => {},
        },
        None => {},
    }
}

/// The diagnostic of the canvas's engine in words. Picks and keeps an engine
/// where the canvas holds none, as `Canvas::engine` does.
pub fn get_engine_status(canvas: &mut Canvas, env: Environment) -> (words: String)
    ensures
        words@ == old(canvas)@.resolved(env).status_in(env).text(),
        final(canvas)@ == old(canvas)@.materialized(env),
{
    let engine = canvas.engine(env);
    engine.status(env).describe()
}

/// Asking for the engine twice, with no engine set in between, gives the
/// same engine both times, even where the environment has changed in the
/// meantime, and the second call changes nothing.
pub proof fn engine_is_kept(canvas: CanvasState, first: Environment, second: Environment)
    ensures
        canvas.materialized(first).resolved(second) == canvas.resolved(first),
        canvas.materialized(first).materialized(second) == canvas.materialized(first),
{
}

/// A request for an engine that is unknown, or that cannot run in the
/// environment, leaves the canvas as it was: size and engine alike.
pub proof fn unselectable_request_is_ignored(canvas: CanvasState, name: Seq<char>, env: Environment)
    requires
        match RenderingEngine::named(name) {
            Some(engine) => !engine.usable_in(env),
            None => true,
        },
    ensures
        canvas.requested(Some(name), env) == canvas,
        forall|later: Environment| canvas.requested(Some(name), env).resolved(later) == canvas.resolved(later),
{
}

/// A request that is honoured installs the engine asked for and leaves the
/// size alone.
pub proof fn selectable_request_is_installed(canvas: CanvasState, name: Seq<char>, env: Environment)
    requires
        CanvasState::accepts(Some(name), env),
    ensures
        canvas.requested(Some(name), env).engine == RenderingEngine::named(name),
        canvas.requested(Some(name), env).engine.is_some(),
        canvas.requested(Some(name), env).width == canvas.width,
        canvas.requested(Some(name), env).height == canvas.height,
{
}

} // verus!
