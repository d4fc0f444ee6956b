//! The Prometheus metrics of the server.

use vstd::prelude::*;

use crate::text::opt_string;

verus! {

/// After how many seconds a metric that does not change is dropped.
pub const IDLE_TIMEOUT_SECS: u64 = 120;

/// How the recorder of metrics is set up.
#[derive(Debug)]
pub struct Recorder {
    pub idle_timeout_secs: u64,
    /// The labels of every metric, by name and value.
    pub global_labels: Vec<(String, String)>,
}

/// The labels of every metric: the app and the version, when the app has a label.
pub open spec fn global_labels(app_label: Option<Seq<char>>, version: Seq<char>) -> Seq<
    (Seq<char>, Seq<char>),
> {
    match app_label {
        Some(app) => seq![("app"@, app), ("version"@, version)],
        None => seq![],
    }
}

/// Tells how to set up the recorder, unless it is set up already: only the first call does so.
pub fn init_metrics(installed: bool, app_label: Option<String>, version: &str) -> (r: Option<
    Recorder,
>)
    ensures
        if installed {
            r is None
        } else {
            r matches Some(recorder) && recorder.idle_timeout_secs == IDLE_TIMEOUT_SECS
                && recorder.global_labels@.map_values(|l: (String, String)| (l.0@, l.1@))
                == global_labels(opt_string(app_label), version@)
        },
{
    if installed {
        return None;
    }
    let mut labels: Vec<(String, String)> = Vec::new();
    let ghost app = opt_string(app_label);
    if let Some(label) = app_label {
        labels.push(("app".to_owned(), label));
        labels.push(("version".to_owned(), version.to_owned()));
    }
    assert(labels@.map_values(|l: (String, String)| (l.0@, l.1@)) =~= global_labels(app, version@));
    Some(Recorder { idle_timeout_secs: IDLE_TIMEOUT_SECS, global_labels: labels })
}

/// The text of the metrics: what the recorder renders, or nothing when there is none.
pub fn render_metrics(rendered: Option<String>) -> (r: String)
    ensures
        r@ == match opt_string(rendered) {
            Some(text) => text,
            None => Seq::<char>::empty(),
        },
{
    match rendered {
        Some(text) => text,
        None => String::new(),
    }
}


/// Only the first call sets the recorder up. Metrics carry the label of the app together with the
/// version, or neither, and are dropped after two minutes.
pub proof fn lemma_init_metrics(
    installed: bool,
    app_label: Option<String>,
    version: &str,
    r: Option<Recorder>,
)
    requires
        call_ensures(init_metrics, (installed, app_label, version), r),
    ensures
        r is None <==> installed,
        r matches Some(recorder) ==> {
            let labels = recorder.global_labels@;
            &&& recorder.idle_timeout_secs == 2 * 60
            &&& app_label is None ==> labels.len() == 0
            &&& app_label matches Some(app) ==> labels.len() == 2 && labels[0].0@ == "app"@
                && labels[0].1@ == app@ && labels[1].0@ == "version"@ && labels[1].1@ == version@
        },
{
    if let Some(recorder) = r {
        let views = recorder.global_labels@.map_values(|l: (String, String)| (l.0@, l.1@));
        assert(views == global_labels(opt_string(app_label), version@));
        assert(views.len() == recorder.global_labels@.len());
        if app_label is Some {
            assert(views[0] == (recorder.global_labels@[0].0@, recorder.global_labels@[0].1@));
            assert(views[1] == (recorder.global_labels@[1].0@, recorder.global_labels@[1].1@));
        }
    }
}

/// What the recorder renders is passed on as it is; without one there is nothing.
pub proof fn lemma_render_metrics(rendered: Option<String>, r: String)
    requires
        call_ensures(render_metrics, (rendered,), r),
    ensures
        rendered matches Some(text) ==> r@ == text@,
        rendered is None ==> r@.len() == 0,
{
}

} // verus!
