//! From the answers of the cluster to the workload instances in scope.
//!
//! The caller asks each namespace for its instances and hands the answers
//! over, in the order of the namespaces. The handles that come back name a
//! namespace's capability by its position in that order.

use crate::schedule::Found;
use crate::text::clone_texts;
use vstd::prelude::*;

verus! {

/// One workload instance as a namespace lists it.
#[derive(Clone, Debug, PartialEq, Eq)]
pub struct PodEntry {
    pub name: String,
    pub namespace: String,
    /// The names of the containers the instance declares, in their order.
    pub containers: Vec<String>,
}

/// What one namespace answered when it was asked for its instances.
#[derive(Clone, Debug, PartialEq, Eq)]
pub enum Listing {
    /// The instances that match the selectors; none is a normal answer.
    Found(Vec<PodEntry>),
    /// The listing call itself failed, with the reason.
    Failed(String),
}

/// One workload instance in scope.
#[derive(Clone, Debug, PartialEq, Eq)]
pub struct WorkloadInstanceHandle {
    pub name: String,
    pub namespace: String,
    /// Which of the caller's namespace capabilities listed the instance.
    pub capability: usize,
    /// The names of the containers the instance declares, in their order.
    pub containers: Vec<String>,
}

/// A listing call failed: nothing can be said about the instances in scope.
#[derive(Clone, Debug, PartialEq, Eq)]
pub struct ResolutionError {
    /// Which of the caller's namespace capabilities failed.
    pub capability: usize,
    /// The reason it gave.
    pub message: String,
}

/// The selectors of one listing call.
#[derive(Clone, Debug, PartialEq, Eq)]
pub struct ListQuery {
    pub label_selector: Option<String>,
    pub field_selector: Option<String>,
}

/// A listed instance as plain mathematical values.
pub struct EntryView {
    pub name: Seq<char>,
    pub namespace: Seq<char>,
    pub containers: Seq<Seq<char>>,
}

/// An answer as plain mathematical values.
pub enum ListingView {
    Found(Seq<EntryView>),
    Failed(Seq<char>),
}

/// A handle as plain mathematical values.
pub struct HandleView {
    pub name: Seq<char>,
    pub namespace: Seq<char>,
    pub capability: int,
    pub containers: Seq<Seq<char>>,
}

/// A failed listing as plain mathematical values.
pub struct ResolutionErrorView {
    pub capability: int,
    pub message: Seq<char>,
}

impl DeepView for PodEntry {
    type V = EntryView;

    open spec fn deep_view(&self) -> EntryView {
        EntryView {
            name: self.name@,
            namespace: self.namespace@,
            containers: self.containers.deep_view(),
        }
    }
}

impl DeepView for Listing {
    type V = ListingView;

    open spec fn deep_view(&self) -> ListingView {
        match self {
            Listing::Found(entries) => ListingView::Found(entries.deep_view()),
            Listing::Failed(message) => ListingView::Failed(message@),
        }
    }
}

impl DeepView for WorkloadInstanceHandle {
    type V = HandleView;

    open spec fn deep_view(&self) -> HandleView {
        HandleView {
            name: self.name@,
            namespace: self.namespace@,
            capability: self.capability as int,
            containers: self.containers.deep_view(),
        }
    }
}

impl View for WorkloadInstanceHandle {
    type V = HandleView;

    open spec fn view(&self) -> HandleView {
        self.deep_view()
    }
}

impl View for ResolutionError {
    type V = ResolutionErrorView;

    open spec fn view(&self) -> ResolutionErrorView {
        ResolutionErrorView { capability: self.capability as int, message: self.message@ }
    }
}

/// The handle of an entry that the capability at `capability` listed.
pub open spec fn handle_of(entry: EntryView, capability: int) -> HandleView {
    HandleView {
        name: entry.name,
        namespace: entry.namespace,
        capability,
        containers: entry.containers,
    }
}

/// The handles of the entries of one answer, in their order.
pub open spec fn handles_in(listing: ListingView, capability: int) -> Seq<HandleView> {
    match listing {
        ListingView::Found(entries) => Seq::new(
            entries.len(),
            |k: int| handle_of(entries[k], capability),
        ),
        ListingView::Failed(_) => Seq::empty(),
    }
}

/// The handles of all answers: namespace by namespace, and within a
/// namespace in the order of its answer.
pub open spec fn handles_of(listings: Seq<ListingView>) -> Seq<HandleView>
    decreases listings.len(),
{
    if listings.len() == 0 {
        Seq::empty()
    } else {
        handles_of(listings.drop_last()) + handles_in(listings.last(), listings.len() - 1)
    }
}

/// No answer is a failure.
pub open spec fn all_found(listings: Seq<ListingView>) -> bool {
    forall|i: int| 0 <= i < listings.len() ==> listings[i] is Found
}

/// The answer at `i` is a failure and none before it is.
pub open spec fn first_failure(listings: Seq<ListingView>, i: int) -> bool {
    &&& 0 <= i < listings.len()
    &&& listings[i] is Failed
    &&& forall|j: int| 0 <= j < i ==> listings[j] is Found
}

/// The selectors of a listing call. An empty selector constrains nothing;
/// it is handed on as it is.
pub fn list_query(label: &str, field: &str) -> (q: ListQuery)
    ensures
        q.label_selector.deep_view() == Some(label@),
        q.field_selector.deep_view() == Some(field@),
{
    ListQuery { label_selector: Some(label.to_owned()), field_selector: Some(field.to_owned()) }
}

fn handles_from(entries: &Vec<PodEntry>, capability: usize, out: &mut Vec<WorkloadInstanceHandle>)
    ensures
        final(out).deep_view() == old(out).deep_view() + handles_in(
            ListingView::Found(entries.deep_view()),
            capability as int,
        ),
{
    let ghost before = out.deep_view();
    let ghost added = handles_in(ListingView::Found(entries.deep_view()), capability as int);
    let mut k: usize = 0;
    while k < entries.len()
        invariant
            k <= entries.len(),
            added == handles_in(ListingView::Found(entries.deep_view()), capability as int),
            out.deep_view() == before + added.take(k as int),
        decreases entries.len() - k,
    {
        let entry = &entries[k];
        let handle = WorkloadInstanceHandle {
            name: entry.name.clone(),
            namespace: entry.namespace.clone(),
            capability,
            containers: clone_texts(&entry.containers),
        };
        proof {
            assert(handle.deep_view() == added[k as int]) by {
                assert(entries.deep_view()[k as int] == entry.deep_view());
            }
            assert(added.take(k + 1) =~= added.take(k as int).push(added[k as int]));
        }
        let ghost prior = out.deep_view();
        out.push(handle);
        proof {
            assert(out.deep_view() =~= prior.push(handle.deep_view()));
        }
        k += 1;
    }
    proof {
        assert(added.take(entries.len() as int) =~= added);
    }
}

/// The workload instances in scope, from the answers of the namespaces.
///
/// One failed listing fails the whole call, with the first failure in the
/// order of the namespaces. Otherwise every listed instance gets a handle; no
/// instance at all is a normal result.
pub fn get_pod_list(listings: &Vec<Listing>) -> (r: Result<
    Vec<WorkloadInstanceHandle>,
    ResolutionError,
>)
    ensures
        r is Ok <==> all_found(listings.deep_view()),
        r matches Ok(handles) ==> handles.deep_view() == handles_of(listings.deep_view()),
        r matches Err(e) ==> first_failure(listings.deep_view(), e@.capability)
            && listings.deep_view()[e@.capability] == ListingView::Failed(e@.message),
{
    let mut handles: Vec<WorkloadInstanceHandle> = Vec::new();
    let mut i: usize = 0;
    assert(handles.deep_view() =~= handles_of(listings.deep_view().take(0)));
    while i < listings.len()
        invariant
            i <= listings.len(),
            forall|j: int| 0 <= j < i ==> listings.deep_view()[j] is Found,
            handles.deep_view() == handles_of(listings.deep_view().take(i as int)),
        decreases listings.len() - i,
    {
        proof {
            let all = listings.deep_view();
            assert(all[i as int] == listings[i as int].deep_view());
            assert(all.take(i + 1).drop_last() =~= all.take(i as int));
            assert(all.take(i + 1).last() == all[i as int]);
        }
        match &listings[i] {
            Listing::Found(entries) => {
                handles_from(entries, i, &mut handles);
            },
            Listing::Failed(message) => {
                return Err(ResolutionError { capability: i, message: message.clone() });
            },
        }
        i += 1;
    }
    proof {
        assert(listings.deep_view().take(listings.len() as int) =~= listings.deep_view());
    }
    Ok(handles)
}

impl WorkloadInstanceHandle {
    /// The first container the instance declares. An instance that declares
    /// none has no first container.
    pub fn first_container(&self) -> (r: Option<&String>)
        ensures
            self@.containers.len() == 0 <==> r is None,
            r matches Some(c) ==> c@ == self@.containers[0],
    {
        if self.containers.len() == 0 {
            None
        } else {
            assert(self.containers.deep_view()[0] == self.containers[0]@);
            Some(&self.containers[0])
        }
    }
}

} // verus!
