use vstd::prelude::*;
use vstd::string::StringExecFns;

verus! {

/// What a selection dialog lets the user pick.
#[derive(Debug, Clone, Copy, PartialEq, Eq, Structural)]
pub enum SelectionTarget {
    File,
    Directory,
}

/// The mathematical view of a file filter.
pub struct DialogFilterView {
    pub label: Seq<char>,
    pub extensions: Seq<Seq<char>>,
}

/// A file filter of a selection dialog: a label and the extensions it lets through.
#[derive(Debug, PartialEq, Eq)]
pub struct DialogFilter {
    pub label: String,
    pub extensions: Vec<String>,
}

impl View for DialogFilter {
    type V = DialogFilterView;

    open spec fn view(&self) -> DialogFilterView {
        DialogFilterView { label: self.label@, extensions: texts(self.extensions@) }
    }
}

/// The characters of each text of `items`, in the same order.
pub open spec fn texts(items: Seq<String>) -> Seq<Seq<char>> {
    items.map_values(|item: String| item@)
}

/// The views of the filters of `filters`, in the same order.
pub open spec fn filter_views(filters: Seq<DialogFilter>) -> Seq<DialogFilterView> {
    filters.map_values(|filter: DialogFilter| filter@)
}

fn copy_texts(items: &Vec<String>) -> (copy: Vec<String>)
    ensures
        texts(copy@) == texts(items@),
{
    let mut copy: Vec<String> = Vec::new();
    let mut at: usize = 0;
    while at < items.len()
        invariant
            at <= items.len(),
            copy@.len() == at,
            forall|i: int| 0 <= i < at ==> (#[trigger] copy@[i])@ == items@[i]@,
        decreases items.len() - at,
    {
        copy.push(items[at].clone());
        at += 1;
    }
    copy
}

impl Clone for DialogFilter {
    fn clone(&self) -> (copy: DialogFilter)
        ensures
            copy@ == self@,
    {
        DialogFilter { label: self.label.clone(), extensions: copy_texts(&self.extensions) }
    }
}

fn copy_filters(filters: &Vec<DialogFilter>) -> (copy: Vec<DialogFilter>)
    ensures
        filter_views(copy@) == filter_views(filters@),
{
    let mut copy: Vec<DialogFilter> = Vec::new();
    let mut at: usize = 0;
    while at < filters.len()
        invariant
            at <= filters.len(),
            copy@.len() == at,
            forall|i: int| 0 <= i < at ==> (#[trigger] copy@[i])@ == filters@[i]@,
        decreases filters.len() - at,
    {
        copy.push(filters[at].clone());
        at += 1;
    }
    copy
}

/// The mathematical view of a request for a selection dialog.
pub struct SelectionRequestView {
    pub title: Seq<char>,
    pub target: SelectionTarget,
    pub location: Option<Seq<char>>,
    pub filters: Seq<DialogFilterView>,
}

/// A request to let the user pick a file or a directory.
#[derive(Debug, PartialEq, Eq)]
pub struct SelectionRequest {
    pub title: String,
    pub target: SelectionTarget,
    /// Where the dialog opens, if the caller cares.
    pub location: Option<String>,
    /// The file filters the dialog offers; none means every file.
    pub filters: Vec<DialogFilter>,
}

impl View for SelectionRequest {
    type V = SelectionRequestView;

    open spec fn view(&self) -> SelectionRequestView {
        SelectionRequestView {
            title: self.title@,
            target: self.target,
            location: match self.location {
                Some(place) => Some(place@),
                None => None,
            },
            filters: filter_views(self.filters@),
        }
    }
}

impl Clone for SelectionRequest {
    fn clone(&self) -> (copy: SelectionRequest)
        ensures
            copy@ == self@,
    {
        let location = match &self.location {
            Some(place) => Some(place.clone()),
            None => None,
        };
        SelectionRequest {
            title: self.title.clone(),
            target: self.target,
            location,
            filters: copy_filters(&self.filters),
        }
    }
}

/// The mathematical view of a request for a confirmation dialog.
pub struct ConfirmationRequestView {
    pub title: Seq<char>,
    pub text: Seq<char>,
}

/// A request to have the user say yes or no to `text`.
#[derive(Debug, PartialEq, Eq)]
pub struct ConfirmationRequest {
    pub title: String,
    pub text: String,
}

impl View for ConfirmationRequest {
    type V = ConfirmationRequestView;

    open spec fn view(&self) -> ConfirmationRequestView {
        ConfirmationRequestView { title: self.title@, text: self.text@ }
    }
}

impl Clone for ConfirmationRequest {
    fn clone(&self) -> (copy: ConfirmationRequest)
        ensures
            copy@ == self@,
    {
        ConfirmationRequest { title: self.title.clone(), text: self.text.clone() }
    }
}

/// The mathematical view of a dialog request.
pub enum DialogRequestView {
    Selection(SelectionRequestView),
    Confirmation(ConfirmationRequestView),
}

/// A modal dialog for the hosting toolkit to present.
#[derive(Debug, PartialEq, Eq)]
pub enum DialogRequest {
    Selection(SelectionRequest),
    Confirmation(ConfirmationRequest),
}

impl View for DialogRequest {
    type V = DialogRequestView;

    open spec fn view(&self) -> DialogRequestView {
        match self {
            DialogRequest::Selection(request) => DialogRequestView::Selection(request@),
            DialogRequest::Confirmation(request) => DialogRequestView::Confirmation(request@),
        }
    }
}

impl Clone for DialogRequest {
    fn clone(&self) -> (copy: DialogRequest)
        ensures
            copy@ == self@,
    {
        match self {
            DialogRequest::Selection(request) => DialogRequest::Selection(request.clone()),
            DialogRequest::Confirmation(request) => DialogRequest::Confirmation(request.clone()),
        }
    }
}

/// The mathematical view of a dialog's answer.
pub enum DialogResultView {
    Selected(Seq<char>),
    Cancelled,
    Confirmed(bool),
}

/// What the user answered to a dialog. A selection dialog ends in `Selected` or
/// `Cancelled`, a confirmation dialog in `Confirmed`.
#[derive(Debug, PartialEq, Eq)]
pub enum DialogResult {
    Selected(String),
    Cancelled,
    Confirmed(bool),
}

impl View for DialogResult {
    type V = DialogResultView;

    open spec fn view(&self) -> DialogResultView {
        match self {
            DialogResult::Selected(path) => DialogResultView::Selected(path@),
            DialogResult::Cancelled => DialogResultView::Cancelled,
            DialogResult::Confirmed(yes) => DialogResultView::Confirmed(*yes),
        }
    }
}

impl Clone for DialogResult {
    fn clone(&self) -> (copy: DialogResult)
        ensures
            copy@ == self@,
    {
        match self {
            DialogResult::Selected(path) => DialogResult::Selected(path.clone()),
            DialogResult::Cancelled => DialogResult::Cancelled,
            DialogResult::Confirmed(yes) => DialogResult::Confirmed(*yes),
        }
    }
}

/// A dialog that could not be presented at all, with what the toolkit said of it.
/// This is no answer of the user.
#[derive(Debug, PartialEq, Eq)]
pub struct DialogPresentationError {
    pub message: String,
}

impl View for DialogPresentationError {
    type V = Seq<char>;

    open spec fn view(&self) -> Seq<char> {
        self.message@
    }
}

impl Clone for DialogPresentationError {
    fn clone(&self) -> (copy: DialogPresentationError)
        ensures
            copy@ == self@,
    {
        DialogPresentationError { message: self.message.clone() }
    }
}

/// A path as a confirmation dialog shows it: between double quotes.
pub open spec fn rendered(path: Seq<char>) -> Seq<char> {
    seq!['"'] + path + seq!['"']
}

/// The text that asks the user about `path`.
pub fn confirmation_text(path: &str) -> (text: String)
    ensures
        text@ == rendered(path@),
{
    proof {
        reveal_strlit("\"");
    }
    let mut text = String::from_str("\"");
    text.append(path);
    text.append("\"");
    text
}

/// The rendering of a path holds the path, unchanged, behind the opening quote.
pub proof fn lemma_rendered_holds_path(path: Seq<char>)
    ensures
        rendered(path).len() == path.len() + 2,
        rendered(path).subrange(1, path.len() as int + 1) == path,
{
}

} // verus!
