//! The client's endpoints, grouped by resource, and its pages.
use crate::client::SingleFlight;
use vstd::prelude::*;

verus! {

/// The session endpoint.
#[derive(Debug)]
pub struct AuthApi {
    /// Whether the operator is signed in, and with which roles.
    pub is_authenticated: SingleFlight,
}

/// The import endpoints.
#[derive(Debug)]
pub struct BulkApi {
    /// Creates an import from a list of names.
    pub create: SingleFlight,
    /// Applies a patch to an import.
    pub patch: SingleFlight,
    /// Fetches the imports the operator may see.
    pub fetch: SingleFlight,
}

/// The record endpoints.
#[derive(Debug)]
pub struct PigApi {
    pub create: SingleFlight,
    pub update: SingleFlight,
    pub delete: SingleFlight,
    pub fetch: SingleFlight,
}

/// The user endpoints.
#[derive(Debug)]
pub struct UserApi {
    pub fetch: SingleFlight,
    pub roles: SingleFlight,
    pub expire: SingleFlight,
}

impl AuthApi {
    pub fn new() -> (r: AuthApi)
        ensures
            r.is_authenticated.current is None,
    {
        AuthApi { is_authenticated: SingleFlight::new() }
    }
}

impl BulkApi {
    pub fn new() -> (r: BulkApi)
        ensures
            r.create.current is None,
            r.patch.current is None,
            r.fetch.current is None,
    {
        BulkApi { create: SingleFlight::new(), patch: SingleFlight::new(), fetch: SingleFlight::new() }
    }
}

impl PigApi {
    pub fn new() -> (r: PigApi)
        ensures
            r.create.current is None,
            r.update.current is None,
            r.delete.current is None,
            r.fetch.current is None,
    {
        PigApi {
            create: SingleFlight::new(),
            update: SingleFlight::new(),
            delete: SingleFlight::new(),
            fetch: SingleFlight::new(),
        }
    }
}

impl UserApi {
    pub fn new() -> (r: UserApi)
        ensures
            r.fetch.current is None,
            r.roles.current is None,
            r.expire.current is None,
    {
        UserApi { fetch: SingleFlight::new(), roles: SingleFlight::new(), expire: SingleFlight::new() }
    }
}

/// An action that waits for the operator when there are unsaved edits.
#[derive(Debug)]
pub enum DirtyAction<C, S> {
    /// Create something.
    Create(C),
    /// Change the selection (to nothing, for `None`).
    Select(Option<S>),
    /// No action.
    NoAction,
}

impl<C, S> DirtyAction<C, S> {
    /// The kind of the action, its payload aside.
    pub open spec fn kind(&self) -> int {
        match self {
            DirtyAction::Create(_) => 0,
            DirtyAction::Select(_) => 1,
            DirtyAction::NoAction => 2,
        }
    }

    /// Whether two actions are of the same kind; the payloads are not
    /// compared.
    pub fn same_kind(&self, other: &DirtyAction<C, S>) -> (r: bool)
        ensures
            r == (self.kind() == other.kind()),
    {
        match (self, other) {
            (DirtyAction::Create(_), DirtyAction::Create(_)) => true,
            (DirtyAction::Select(_), DirtyAction::Select(_)) => true,
            (DirtyAction::NoAction, DirtyAction::NoAction) => true,
            _ => false,
        }
    }
}

/// The pages an operator can navigate to.
#[derive(Clone, Copy, Debug, PartialEq, Eq, Structural)]
pub enum Routes {
    /// The record list.
    Pigs,
    /// Bulk imports.
    Bulk,
    /// User administration.
    Users,
    /// An unknown page.
    NotFound,
}

/// The text of an error page.
#[derive(Debug)]
pub struct ErrPageRender {
    pub head: String,
    pub body: String,
}

impl ErrPageRender {
    /// The page shown for an unknown address.
    pub fn not_found() -> (r: ErrPageRender)
        ensures
            r.head@ == "Page Not Found"@,
            r.body@ == "That pig is in another castle!"@,
    {
        ErrPageRender {
            head: String::from_str("Page Not Found"),
            body: String::from_str("That pig is in another castle!"),
        }
    }
}

/// What renders each page: one variant per route.
#[derive(Debug)]
pub enum Renderer {
    Pigs,
    Bulk,
    Users,
    Error(ErrPageRender),
}

impl Routes {
    /// The renderer of this route.
    pub fn get_renderer(&self) -> (r: Renderer)
        ensures
            *self == Routes::Pigs ==> r is Pigs,
            *self == Routes::Bulk ==> r is Bulk,
            *self == Routes::Users ==> r is Users,
            *self == Routes::NotFound ==> (r matches Renderer::Error(p) && p.head@
                == "Page Not Found"@),
    {
        match self {
            Routes::Pigs => Renderer::Pigs,
            Routes::Bulk => Renderer::Bulk,
            Routes::Users => Renderer::Users,
            Routes::NotFound => Renderer::Error(ErrPageRender::not_found()),
        }
    }
}

/// The common frame of every page: it checks the session when the
/// application opens.
#[derive(Debug)]
pub struct LayoutRender {
    pub auth_api: AuthApi,
}

impl LayoutRender {
    pub fn new() -> (r: LayoutRender)
        ensures
            r.auth_api.is_authenticated.current is None,
    {
        LayoutRender { auth_api: AuthApi::new() }
    }

    /// Opening the application: asks the server whether the session is
    /// valid, and returns the request's ticket.
    pub fn open(&mut self) -> (ticket: u64)
        ensures
            final(self).auth_api.is_authenticated.current == Some(ticket),
    {
        self.auth_api.is_authenticated.submit()
    }
}

/// A list whose rows can be selected.
#[derive(Debug)]
pub struct SelectableList {}

impl SelectableList {
    pub fn new() -> (r: SelectableList) {
        SelectableList {  }
    }
}

} // verus!
