//! The attachment of a rendering surface to a window, and the choice of a
//! graphics adapter for it.

use vstd::prelude::*;

verus! {

/// Why the renderer could not be set up.
#[derive(Debug, Clone, Copy, PartialEq, Eq, Structural)]
pub enum RendererError {
    /// There is no surface: none could be made for the window, or none was
    /// attached before the adapter was asked for.
    SurfaceInitialization,
}

impl RendererError {
    /// The error as a line of text for the user.
    pub fn to_string(&self) -> (text: String)
        ensures
            text@ == "SurfaceInitialization"@,
    {
        match self {
            RendererError::SurfaceInitialization => String::from_str("SurfaceInitialization"),
        }
    }
}

/// The surface of a renderer after an attachment: the one that was made
/// for the window, and without one the surface as it was.
pub open spec fn attached<S>(surface: Option<S>, created: Option<S>) -> Option<S> {
    if created is Some {
        created
    } else {
        surface
    }
}

/// The surface of a renderer after a sequence of attachments, first to
/// last.
pub open spec fn attached_all<S>(surface: Option<S>, created: Seq<Option<S>>) -> Option<S>
    decreases created.len(),
{
    if created.len() == 0 {
        surface
    } else {
        attached(attached_all(surface, created.drop_last()), created.last())
    }
}

/// What the first step of the initialization returns for a renderer with
/// the given surface: the surface that the adapter has to suit, or the
/// error where there is none.
pub open spec fn initialized<S>(surface: Option<S>) -> Result<S, RendererError> {
    match surface {
        Some(s) => Ok(s),
        None => Err(RendererError::SurfaceInitialization),
    }
}

/// A renderer over some graphics backend. The backend's own calls are made
/// by the caller, which hands their results in: a surface, once it is made
/// for a window, and an adapter, once the backend has answered.
pub trait Renderer {
    /// The drawable target that the backend makes for a window.
    type Surface;

    /// The graphics device that the backend selects.
    type Adapter;

    /// The attached surface.
    spec fn spec_surface(&self) -> Option<Self::Surface>;

    /// The stored adapter.
    spec fn spec_adapter(&self) -> Option<Self::Adapter>;

    /// Attaches the surface that the backend made for a window. `None` says
    /// that it could make none: that is an error, and the renderer stays as
    /// it is.
    fn attach_window(&mut self, created: Option<Self::Surface>) -> (result: Result<
        (),
        RendererError,
    >)
        ensures
            result is Ok <==> created is Some,
            result is Err ==> result == Err::<(), RendererError>(
                RendererError::SurfaceInitialization,
            ),
            final(self).spec_surface() == attached(old(self).spec_surface(), created),
            final(self).spec_adapter() == old(self).spec_adapter(),
    ;

    /// The first step of the initialization: the surface that the adapter
    /// has to suit, for the caller to ask the backend with. Without a
    /// surface this is an error, and there is nothing to ask the backend.
    fn initialize(&self) -> (request: Result<&Self::Surface, RendererError>)
        ensures
            match request {
                Ok(surface) => initialized(self.spec_surface()) == Ok::<
                    Self::Surface,
                    RendererError,
                >(*surface),
                Err(error) => initialized(self.spec_surface()) == Err::<
                    Self::Surface,
                    RendererError,
                >(error),
            },
    ;

    /// The second step of the initialization: stores the adapter that the
    /// backend answered with. A renderer without a surface has asked for
    /// none and stores none.
    fn store_adapter(&mut self, adapter: Self::Adapter) -> (result: Result<(), RendererError>)
        ensures
            result is Ok <==> old(self).spec_surface() is Some,
            result is Err ==> result == Err::<(), RendererError>(
                RendererError::SurfaceInitialization,
            ),
            final(self).spec_surface() == old(self).spec_surface(),
            final(self).spec_adapter() == if old(self).spec_surface() is Some {
                Some(adapter)
            } else {
                old(self).spec_adapter()
            },
    ;

    /// Draws a frame. There is nothing to draw yet: this succeeds and
    /// leaves the renderer as it is.
    fn render(&mut self) -> (result: Result<(), RendererError>)
        ensures
            result is Ok,
            final(self).spec_surface() == old(self).spec_surface(),
            final(self).spec_adapter() == old(self).spec_adapter(),
    ;
}

/// The renderer of the application: a graphics instance, the surface that
/// is attached to the window, and the adapter that was selected for it.
pub struct WGPURenderer<I, S, A> {
    instance: I,
    adapter: Option<A>,
    surface: Option<S>,
}

impl<I, S, A> WGPURenderer<I, S, A> {
    /// The graphics instance.
    pub closed spec fn spec_instance(&self) -> I {
        self.instance
    }

    /// A renderer on the given graphics instance, with no surface and no
    /// adapter.
    pub fn new(instance: I) -> (renderer: WGPURenderer<I, S, A>)
        ensures
            renderer.spec_instance() == instance,
            renderer.spec_surface() is None,
            renderer.spec_adapter() is None,
    {
        WGPURenderer { instance, adapter: None, surface: None }
    }

    /// The graphics instance.
    pub fn instance(&self) -> (instance: &I)
        ensures
            *instance == self.spec_instance(),
    {
        &self.instance
    }

    /// The attached surface.
    pub fn surface(&self) -> (surface: Option<&S>)
        ensures
            surface is Some <==> self.spec_surface() is Some,
            surface is Some ==> Some(*surface->0) == self.spec_surface(),
    {
        self.surface.as_ref()
    }

    /// The stored adapter.
    pub fn adapter(&self) -> (adapter: Option<&A>)
        ensures
            adapter is Some <==> self.spec_adapter() is Some,
            adapter is Some ==> Some(*adapter->0) == self.spec_adapter(),
    {
        self.adapter.as_ref()
    }
}

impl<I, S, A> Renderer for WGPURenderer<I, S, A> {
    type Surface = S;

    type Adapter = A;

    closed spec fn spec_surface(&self) -> Option<S> {
        self.surface
    }

    closed spec fn spec_adapter(&self) -> Option<A> {
        self.adapter
    }

    fn attach_window(&mut self, created: Option<S>) -> (result: Result<(), RendererError>) {
        match created {
            Some(surface) => {
                self.surface = Some(surface);
                Ok(())
            },
            None => Err(RendererError::SurfaceInitialization),
        }
    }

    fn initialize(&self) -> (request: Result<&S, RendererError>) {
        match &self.surface {
            Some(surface) => Ok(surface),
            None => Err(RendererError::SurfaceInitialization),
        }
    }

    fn store_adapter(&mut self, adapter: A) -> (result: Result<(), RendererError>) {
        if self.surface.is_none() {
            return Err(RendererError::SurfaceInitialization);
        }
        self.adapter = Some(adapter);
        Ok(())
    }

    fn render(&mut self) -> (result: Result<(), RendererError>) {
        Ok(())
    }
}

/// A renderer to which no surface was attached with success has none,
/// however often the attachment was tried, and its initialization fails
/// with `SurfaceInitialization` before the backend is asked for anything.
pub proof fn lemma_initialize_needs_surface<S>(created: Seq<Option<S>>)
    requires
        forall|i: int| 0 <= i < created.len() ==> created[i] is None,
    ensures
        attached_all(None::<S>, created) is None,
        initialized(attached_all(None::<S>, created)) == Err::<S, RendererError>(
            RendererError::SurfaceInitialization,
        ),
    decreases created.len(),
{
    if created.len() > 0 {
        lemma_initialize_needs_surface(created.drop_last());
    }
}

} // verus!
