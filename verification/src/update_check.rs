//! The update check: one release request for each product asked about, each
//! answered by one event, and a last event that says that all have answered.
use vstd::prelude::*;
use vstd::string::*;
use crate::github::{
    chosen_url, fetch_error_text, get_launcher_update_url, get_openuo_update_url,
    get_version_string, identified, is_structured, launcher_choice, openuo_choice,
    release_request, release_result_view, request_for, FetchError, FetchErrorView,
    GithubRelease, ReleaseRequest, ReleaseView, UpdateEvent, UpdateSourceConfig,
    LAUNCHER_RELEASE_URL, NO_IDENTIFIER_MESSAGE, OPEN_UO_RELEASE_URL,
};
use crate::update::Product;

verus! {

/// An update check under way.
pub struct UpdateCheck {
    open_uo: bool,
    launcher: bool,
    finished: bool,
}

/// What the one who runs the check is to do next.
#[derive(Debug)]
pub enum CheckStep {
    /// Ask for the latest release of `product`, and report the answer.
    Fetch { product: Product, request: ReleaseRequest },
    /// Report that the check is done, and stop.
    Done,
}

/// The mathematical content of an `UpdateEvent`.
pub enum UpdateEventView {
    OpenUO(Result<Seq<char>, Seq<char>>),
    Launcher(Result<Seq<char>, Seq<char>>),
    Done,
}

impl View for UpdateEvent {
    type V = UpdateEventView;

    open spec fn view(&self) -> UpdateEventView {
        match self {
            UpdateEvent::OpenUO(Ok(v)) => UpdateEventView::OpenUO(Ok(v@)),
            UpdateEvent::OpenUO(Err(e)) => UpdateEventView::OpenUO(Err(e@)),
            UpdateEvent::Launcher(Ok(v)) => UpdateEventView::Launcher(Ok(v@)),
            UpdateEvent::Launcher(Err(e)) => UpdateEventView::Launcher(Err(e@)),
            UpdateEvent::Done => UpdateEventView::Done,
        }
    }
}

/// The products that a check asks about, in the order in which it asks.
pub open spec fn products_of(open_uo: bool, launcher: bool) -> Seq<Product> {
    let first: Seq<Product> = if open_uo {
        seq![Product::OpenUo]
    } else {
        Seq::empty()
    };
    if launcher {
        first.push(Product::Launcher)
    } else {
        first
    }
}

/// Where the latest release of `product` is asked for under `config`.
pub open spec fn release_url(product: Product, config: Option<&UpdateSourceConfig>) -> Seq<char> {
    match product {
        Product::OpenUo => chosen_url(openuo_choice(config), OPEN_UO_RELEASE_URL@),
        Product::Launcher => chosen_url(launcher_choice(config), LAUNCHER_RELEASE_URL@),
    }
}

impl UpdateCheck {
    /// The products that are still to be asked about, in order.
    pub closed spec fn pending(&self) -> Seq<Product> {
        products_of(self.open_uo, self.launcher)
    }

    /// Whether the check has said that it is done.
    pub closed spec fn finished(&self) -> bool {
        self.finished
    }

    /// Whether the check has said that it is done.
    pub fn is_finished(&self) -> (r: bool)
        ensures
            r == self.finished(),
    {
        self.finished
    }

    /// The next thing to do: a request for the first product still to be
    /// asked about, under the configuration as it is now; `Done` once, when
    /// none is left; and nothing after that.
    pub fn next_step(&mut self, config: Option<&UpdateSourceConfig>) -> (step: Option<CheckStep>)
        ensures
            old(self).finished() ==> step is None && final(self).finished()
                && final(self).pending() == old(self).pending(),
            !old(self).finished() && old(self).pending().len() > 0 ==> (step matches Some(
                CheckStep::Fetch { product, request },
            ) && product == old(self).pending()[0] && request@ == request_for(
                release_url(product, config),
                is_structured(config),
            )) && final(self).pending() == old(self).pending().drop_first()
                && !final(self).finished(),
            !old(self).finished() && old(self).pending().len() == 0 ==> (step matches Some(
                CheckStep::Done,
            )) && final(self).finished() && final(self).pending().len() == 0,
    {
        if self.finished {
            None
        } else if self.open_uo {
            self.open_uo = false;
            assert(final(self).pending() =~= old(self).pending().drop_first());
            let url = get_openuo_update_url(config);
            Some(
                CheckStep::Fetch {
                    product: Product::OpenUo,
                    request: release_request(url.as_str(), config),
                },
            )
        } else if self.launcher {
            self.launcher = false;
            assert(final(self).pending() =~= old(self).pending().drop_first());
            let url = get_launcher_update_url(config);
            Some(
                CheckStep::Fetch {
                    product: Product::Launcher,
                    request: release_request(url.as_str(), config),
                },
            )
        } else {
            self.finished = true;
            Some(CheckStep::Done)
        }
    }
}

/// Begins a check of the products asked about.
pub fn trigger_update_check_impl(open_uo: bool, launcher: bool) -> (check: UpdateCheck)
    ensures
        check.pending() == products_of(open_uo, launcher),
        !check.finished(),
{
    UpdateCheck { open_uo, launcher, finished: false }
}

/// What is reported of a product whose release request ended with `result`:
/// the version that the release goes by, or the failure as a message. A
/// release that goes by no version is reported as a failure.
pub open spec fn check_event(
    product: Product,
    result: Result<ReleaseView, FetchErrorView>,
) -> UpdateEventView {
    let outcome = match result {
        Ok(release) => match identified(release) {
            Ok(found) => Ok(found.name),
            Err(e) => Err(fetch_error_text(e)),
        },
        Err(e) => Err(fetch_error_text(e)),
    };
    match product {
        Product::OpenUo => UpdateEventView::OpenUO(outcome),
        Product::Launcher => UpdateEventView::Launcher(outcome),
    }
}

/// The event that reports how the release request for `product` ended.
pub fn check_result(product: Product, result: Result<GithubRelease, FetchError>) -> (event:
    UpdateEvent)
    ensures
        event@ == check_event(product, release_result_view(result)),
        event matches UpdateEvent::OpenUO(Ok(version)) ==> version@.len() > 0,
        event matches UpdateEvent::Launcher(Ok(version)) ==> version@.len() > 0,
{
    let outcome = match result {
        Ok(release) => {
            if release.name.as_str().is_empty() {
                Err(FetchError::Parse(NO_IDENTIFIER_MESSAGE.to_string()).message())
            } else {
                Ok(get_version_string(&release))
            }
        },
        Err(e) => Err(e.message()),
    };
    match product {
        Product::OpenUo => UpdateEvent::OpenUO(outcome),
        Product::Launcher => UpdateEvent::Launcher(outcome),
    }
}

/// A check asks about each product once, the managed product first, and then
/// says that it is done: of the products asked about, none is left after as
/// many steps as there are products.
pub proof fn lemma_products_of(open_uo: bool, launcher: bool)
    ensures
        products_of(open_uo, launcher).len() == (if open_uo {
            1int
        } else {
            0
        }) + (if launcher {
            1int
        } else {
            0
        }),
        open_uo ==> products_of(open_uo, launcher)[0] == Product::OpenUo,
        launcher ==> products_of(open_uo, launcher).last() == Product::Launcher,
        !open_uo && !launcher ==> products_of(open_uo, launcher) =~= Seq::empty(),
{
}

} // verus!
