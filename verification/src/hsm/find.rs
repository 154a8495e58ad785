//! Search for objects.

use pkcs11_sys::CK_OBJECT_HANDLE;
use vstd::prelude::*;

use super::BaseHsm;
use super::HsmCall;
use super::HsmReply;
use crate::error::InterfaceResult;
use crate::error::InterfaceResultView;
use crate::step::Step;

verus! {

/// What is asked of a session to find objects. `F` is the type of the filter, and `B` is how an
/// identifier is held.
#[derive(Debug)]
pub enum SearchCall<F, B> {
    /// List the objects that pass the filter.
    ListObjects { filter: F },
    /// Read the identifier of an object.
    GetObjectId { handle: CK_OBJECT_HANDLE },
    /// Remember the handle of an object under its identifier.
    CacheObjectHandle { id: B, handle: CK_OBJECT_HANDLE },
}

impl<F> View for SearchCall<F, Vec<u8>> {
    type V = SearchCall<F, Seq<u8>>;

    open spec fn view(&self) -> Self::V {
        match *self {
            SearchCall::ListObjects { filter } => SearchCall::ListObjects { filter },
            SearchCall::GetObjectId { handle } => SearchCall::GetObjectId { handle },
            SearchCall::CacheObjectHandle { id, handle } => SearchCall::CacheObjectHandle {
                id: id@,
                handle,
            },
        }
    }
}

/// The reply to a [`SearchCall`]. `H` is how the handles are held.
pub enum SearchReply<H> {
    /// The reply to `ListObjects`.
    Objects(InterfaceResult<H>),
    /// The reply to `GetObjectId`: `None` where the object has no identifier.
    ObjectId(InterfaceResult<Option<Vec<u8>>>),
    /// The reply to `CacheObjectHandle`.
    Cached(InterfaceResult<()>),
}

impl View for SearchReply<Vec<CK_OBJECT_HANDLE>> {
    type V = SearchReply<Seq<CK_OBJECT_HANDLE>>;

    open spec fn view(&self) -> Self::V {
        match *self {
            SearchReply::Objects(Ok(handles)) => SearchReply::Objects(Ok(handles@)),
            SearchReply::Objects(Err(e)) => SearchReply::Objects(Err(e)),
            SearchReply::ObjectId(result) => SearchReply::ObjectId(result),
            SearchReply::Cached(result) => SearchReply::Cached(result),
        }
    }
}

/// A search that has begun. `F` is the type of the filter, `H` is how the handles are held, and `O`
/// how the identifiers are.
pub enum Search<F, H, O> {
    /// The slot is being got.
    GettingSlot { filter: F },
    /// The session is being opened.
    OpeningSession { filter: F },
    /// The objects are being listed.
    Listing,
    /// The identifier of the object at `position` is being read.
    Reading { handles: H, position: usize, object_ids: O },
    /// The handle of the object at `position` is being remembered.
    Caching { handles: H, position: usize, object_ids: O },
}

/// A [`Search`] as contracts speak of it.
pub type SearchView<F> = Search<F, Seq<CK_OBJECT_HANDLE>, Seq<Vec<u8>>>;

/// A [`Search`] as it is made.
pub struct SearchRun<F> {
    search: Search<F, Vec<CK_OBJECT_HANDLE>, Vec<Vec<u8>>>,
}

impl<F> View for SearchRun<F> {
    type V = Search<F, Seq<CK_OBJECT_HANDLE>, Seq<Vec<u8>>>;

    closed spec fn view(&self) -> Self::V {
        match self.search {
            Search::GettingSlot { filter } => Search::GettingSlot { filter },
            Search::OpeningSession { filter } => Search::OpeningSession { filter },
            Search::Listing => Search::Listing,
            Search::Reading { handles, position, object_ids } => Search::Reading {
                handles: handles@,
                position,
                object_ids: object_ids@,
            },
            Search::Caching { handles, position, object_ids } => Search::Caching {
                handles: handles@,
                position,
                object_ids: object_ids@,
            },
        }
    }
}

/// The next step of a search.
pub type SearchStep<'a, F> = Step<
    SearchRun<F>,
    HsmCall<'a, SearchCall<F, Vec<u8>>>,
    InterfaceResult<Vec<Vec<u8>>>,
>;

/// The next step of a search, as contracts speak of it.
pub type SearchStepView<'a, F> = Step<
    SearchView<F>,
    HsmCall<'a, SearchCall<F, Seq<u8>>>,
    InterfaceResultView<Seq<Vec<u8>>>,
>;

/// The reply to a call of a search.
pub type FindReply = HsmReply<SearchReply<Vec<CK_OBJECT_HANDLE>>>;

/// The reply to a call of a search, as contracts speak of it.
pub type FindReplyView = HsmReply<SearchReply<Seq<CK_OBJECT_HANDLE>>>;

/// How a search begins.
pub open spec fn search_start<'a, F>(slot_id: usize, filter: F) -> SearchStepView<'a, F> {
    Step::Call(Search::GettingSlot { filter }, HsmCall::GetSlot { slot_id })
}

/// How a search goes on with the object at `position`, if there is one.
pub open spec fn reading<'a, F>(
    handles: Seq<CK_OBJECT_HANDLE>,
    position: nat,
    object_ids: Seq<Vec<u8>>,
) -> SearchStepView<'a, F> {
    if position < handles.len() {
        Step::Call(
            Search::Reading { handles, position: position as usize, object_ids },
            HsmCall::Perform(SearchCall::GetObjectId { handle: handles[position as int] }),
        )
    } else {
        Step::Finish(Ok(object_ids))
    }
}

fn read<'a, F>(
    handles: Vec<CK_OBJECT_HANDLE>,
    position: usize,
    object_ids: Vec<Vec<u8>>,
) -> (step: SearchStep<'a, F>)
    ensures
        step@ == reading::<F>(handles@, position as nat, object_ids@),
        step matches Step::Call(search, _) ==> search@.valid(),
{
    if position < handles.len() {
        let handle: CK_OBJECT_HANDLE = handles[position];
        Step::Call(
            SearchRun { search: Search::Reading { handles, position, object_ids } },
            HsmCall::Perform(SearchCall::GetObjectId { handle }),
        )
    } else {
        Step::Finish(Ok(object_ids))
    }
}

impl<F> Search<F, Seq<CK_OBJECT_HANDLE>, Seq<Vec<u8>>> {
    /// What holds at every moment: the object that is looked at is one of those that were listed.
    pub open spec fn valid(self) -> bool {
        match self {
            Search::Reading { handles, position, .. } => position < handles.len() <= usize::MAX,
            Search::Caching { handles, position, .. } => position < handles.len() <= usize::MAX,
            _ => true,
        }
    }

    /// Whether a reply is one to the call that was made last.
    pub open spec fn expects(self, reply: FindReplyView) -> bool {
        match self {
            Search::GettingSlot { .. } => reply is Slot,
            Search::OpeningSession { .. } => reply is Session,
            Search::Listing => reply matches HsmReply::Performed(r) && r is Objects,
            Search::Reading { .. } => reply matches HsmReply::Performed(r) && r is ObjectId,
            Search::Caching { .. } => reply matches HsmReply::Performed(r) && r is Cached,
        }
    }

    /// What follows a reply. An object whose identifier cannot be read, or that has none, is passed
    /// over, and it does not matter whether its handle could be remembered.
    pub open spec fn next<'a>(self, reply: FindReplyView) -> SearchStepView<'a, F> {
        match self {
            Search::GettingSlot { filter } => match reply->Slot_0 {
                Ok(_) => Step::Call(
                    Search::OpeningSession { filter },
                    HsmCall::OpenSession { read_write: true },
                ),
                Err(e) => Step::Finish(Err(e@)),
            },
            Search::OpeningSession { filter } => match reply->Session_0 {
                Ok(_) => Step::Call(
                    Search::Listing,
                    HsmCall::Perform(SearchCall::ListObjects { filter }),
                ),
                Err(e) => Step::Finish(Err(e@)),
            },
            Search::Listing => match reply->Performed_0->Objects_0 {
                Ok(handles) => reading(handles, 0, seq![]),
                Err(e) => Step::Finish(Err(e@)),
            },
            Search::Reading { handles, position, object_ids } => match reply->Performed_0->ObjectId_0 {
                Ok(Some(id)) => Step::Call(
                    Search::Caching { handles, position, object_ids: object_ids.push(id) },
                    HsmCall::Perform(
                        SearchCall::CacheObjectHandle { id: id@, handle: handles[position as int] },
                    ),
                ),
                _ => reading(handles, position as nat + 1, object_ids),
            },
            Search::Caching { handles, position, object_ids } => reading(
                handles,
                position as nat + 1,
                object_ids,
            ),
        }
    }
}

impl<F> SearchRun<F> {
    /// Tells whether a reply is one to the call that was made last.
    pub fn accepts(&self, reply: &FindReply) -> (accepted: bool)
        ensures
            accepted == self@.expects(reply@),
    {
        match (&self.search, reply) {
            (Search::GettingSlot { .. }, HsmReply::Slot(_)) => true,
            (Search::OpeningSession { .. }, HsmReply::Session(_)) => true,
            (Search::Listing, HsmReply::Performed(SearchReply::Objects(_))) => true,
            (Search::Reading { .. }, HsmReply::Performed(SearchReply::ObjectId(_))) => true,
            (Search::Caching { .. }, HsmReply::Performed(SearchReply::Cached(_))) => true,
            _ => false,
        }
    }

    /// Goes on with the reply to the call that was made last.
    pub fn resume<'a>(self, reply: FindReply) -> (step: SearchStep<'a, F>)
        requires
            self@.valid(),
            self@.expects(reply@),
        ensures
            step@ == self@.next(reply@),
            step matches Step::Call(search, _) ==> search@.valid(),
    {
        match (self.search, reply) {
            (Search::GettingSlot { filter }, HsmReply::Slot(result)) => match result {
                Ok(()) => Step::Call(
                    SearchRun { search: Search::OpeningSession { filter } },
                    HsmCall::OpenSession { read_write: true },
                ),
                Err(e) => Step::Finish(Err(e)),
            },
            (Search::OpeningSession { filter }, HsmReply::Session(result)) => match result {
                Ok(_) => Step::Call(
                    SearchRun { search: Search::Listing },
                    HsmCall::Perform(SearchCall::ListObjects { filter }),
                ),
                Err(e) => Step::Finish(Err(e)),
            },
            (Search::Listing, HsmReply::Performed(SearchReply::Objects(result))) => match result {
                Ok(handles) => {
                    let object_ids: Vec<Vec<u8>> = Vec::with_capacity(handles.len());
                    assert(object_ids@ =~= seq![]);
                    read(handles, 0, object_ids)
                },
                Err(e) => Step::Finish(Err(e)),
            },
            (
                Search::Reading { handles, position, object_ids },
                HsmReply::Performed(SearchReply::ObjectId(result)),
            ) => match result {
                Ok(Some(object_id)) => {
                    let handle: CK_OBJECT_HANDLE = handles[position];
                    let id = object_id.clone();
                    assert(id@ =~= object_id@);
                    let mut object_ids = object_ids;
                    object_ids.push(object_id);
                    Step::Call(
                        SearchRun { search: Search::Caching { handles, position, object_ids } },
                        HsmCall::Perform(SearchCall::CacheObjectHandle { id, handle }),
                    )
                },
                _ => read(handles, position + 1, object_ids),
            },
            (
                Search::Caching { handles, position, object_ids },
                HsmReply::Performed(SearchReply::Cached(_)),
            ) => read(handles, position + 1, object_ids),
            _ => vstd::pervasive::unreached(),
        }
    }
}

impl BaseHsm {
    /// Finds the objects that pass the filter. The result holds the identifier of each, in the
    /// order in which the session lists them.
    pub fn find<'a, F>(&self, slot_id: usize, object_filter: F) -> (step: SearchStep<'a, F>)
        ensures
            step@ == search_start::<F>(slot_id, object_filter),
            step matches Step::Call(search, _) ==> search@.valid(),
    {
        Step::Call(
            SearchRun { search: Search::GettingSlot { filter: object_filter } },
            HsmCall::GetSlot { slot_id },
        )
    }
}

} // verus!
