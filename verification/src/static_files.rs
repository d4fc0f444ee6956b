//! The files of the admin UI.
//!
//! A request runs through steps. A step is either the answer or a question about the files,
//! whose outcome the caller hands to the next function.

use vstd::prelude::*;

use crate::http::Status;
use crate::platform::MinitursoConfig;
use crate::text::{
    copies, lemma_strip_copies, opt_str, starts_with, str_eq, strip_all, trim_start_matches,
};

verus! {

/// A file below the directory of the UI.
#[derive(Debug)]
pub struct StaticPath {
    pub relative: String,
    /// Whether the file is the `index.html` in `relative`.
    pub index: bool,
}

/// A step of a request for a file.
pub enum StaticStep {
    /// Answer with an error in JSON.
    Fail { status: Status, message: &'static str },
    /// Tell whether this is a directory.
    Probe { relative: String },
    /// Tell whether this exists.
    Check { path: StaticPath },
    /// Read this file.
    Read { path: StaticPath },
    /// Answer with the content of the file.
    Reply { content_type: &'static str },
}

/// Whether a step answers that there is no such page.
pub open spec fn is_not_found(step: StaticStep) -> bool {
    step matches StaticStep::Fail { status, message } && status == Status::NotFound && message@
        == "Not found"@
}

fn not_found() -> (r: StaticStep)
    ensures
        is_not_found(r),
{
    StaticStep::Fail { status: Status::NotFound, message: "Not found" }
}

/// Whether a step answers that nothing was found, without the status that says so.
pub open spec fn is_plain_not_found(step: StaticStep) -> bool {
    step matches StaticStep::Fail { status, message } && status == Status::Success && message@
        == "Not found"@
}

fn plain_not_found() -> (r: StaticStep)
    ensures
        is_plain_not_found(r),
{
    StaticStep::Fail { status: Status::Success, message: "Not found" }
}

/// Starts to answer a request that no route of the API took. Paths of the API are answered with
/// `404`. The other ones lead to files, if there is a platform.
pub fn admin_static(platform: Option<&MinitursoConfig>, path: &str) -> (r: StaticStep)
    ensures
        if "/api/"@.is_prefix_of(path@) {
            is_not_found(r)
        } else {
            match platform {
                Some(config) => starts_static(config.public_dir is Some, path@, r),
                None => is_plain_not_found(r),
            }
        },
{
    if starts_with(path, "/api/") {
        return not_found();
    }
    match platform {
        Some(config) => serve_static(config, path),
        None => plain_not_found(),
    }
}

/// Whether a step starts to serve a path: a UI that is not built has no files, and a path is
/// taken without its leading slashes.
pub open spec fn starts_static(built: bool, path: Seq<char>, step: StaticStep) -> bool {
    if built {
        step matches StaticStep::Probe { relative } && relative@ == strip_all(path, "/"@)
    } else {
        is_not_found(step)
    }
}

/// Starts to serve a file of the UI.
pub fn serve_static(config: &MinitursoConfig, path: &str) -> (r: StaticStep)
    ensures
        starts_static(config.public_dir is Some, path@, r),
{
    match &config.public_dir {
        None => not_found(),
        Some(_) => StaticStep::Probe { relative: trim_start_matches(path, "/") },
    }
}

/// Goes on once it is known whether the path is a directory, which stands for its index.
pub fn static_after_probe(relative: String, is_dir: bool) -> (r: StaticStep)
    ensures
        r == (StaticStep::Check { path: StaticPath { relative, index: is_dir } }),
{
    StaticStep::Check { path: StaticPath { relative, index: is_dir } }
}

/// Whether a path is the index of the UI itself.
pub open spec fn is_main_index(path: StaticPath) -> bool {
    path.index && path.relative@ == Seq::<char>::empty()
}

/// Goes on once it is known whether the file exists. In place of one that does not, the index
/// of the UI is read.
pub fn static_after_check(path: StaticPath, found: bool) -> (r: StaticStep)
    ensures
        if found {
            r == (StaticStep::Read { path })
        } else {
            r matches StaticStep::Read { path: index } && is_main_index(index)
        },
{
    if found {
        StaticStep::Read { path }
    } else {
        StaticStep::Read { path: StaticPath { relative: String::new(), index: true } }
    }
}

/// What became of the attempt to read a file.
#[derive(Clone, Copy, Debug, PartialEq, Eq, Structural)]
pub enum ReadOutcome {
    /// The file is not there.
    Missing,
    /// The file is there, and could not be opened.
    NotOpened,
    /// The file was opened, and could not be read.
    NotRead,
    /// The file was read.
    Finished,
}

/// The content type of a file with an extension.
pub open spec fn content_type_of(extension: Option<Seq<char>>) -> Seq<char> {
    match extension {
        None => "application/octet-stream"@,
        Some(e) => if e == "html"@ {
            "text/html; charset=utf-8"@
        } else if e == "js"@ {
            "application/javascript"@
        } else if e == "css"@ {
            "text/css"@
        } else if e == "json"@ {
            "application/json"@
        } else if e == "svg"@ {
            "image/svg+xml"@
        } else if e == "png"@ {
            "image/png"@
        } else if e == "ico"@ {
            "image/x-icon"@
        } else if e == "woff2"@ {
            "font/woff2"@
        } else {
            "application/octet-stream"@
        },
    }
}

/// The content type of a file with an extension.
pub fn content_type(extension: Option<&str>) -> (r: &'static str)
    ensures
        r@ == content_type_of(opt_str(extension)),
{
    match extension {
        None => "application/octet-stream",
        Some(e) => if str_eq(e, "html") {
            "text/html; charset=utf-8"
        } else if str_eq(e, "js") {
            "application/javascript"
        } else if str_eq(e, "css") {
            "text/css"
        } else if str_eq(e, "json") {
            "application/json"
        } else if str_eq(e, "svg") {
            "image/svg+xml"
        } else if str_eq(e, "png") {
            "image/png"
        } else if str_eq(e, "ico") {
            "image/x-icon"
        } else if str_eq(e, "woff2") {
            "font/woff2"
        } else {
            "application/octet-stream"
        },
    }
}

/// Finishes once the file at `path` was read, or could not be. `extension` is that of the file. A
/// UI without its index is not built, which is answered with `404`.
pub fn static_after_read(
    path: &StaticPath,
    outcome: ReadOutcome,
    extension: Option<&str>,
) -> (r: StaticStep)
    ensures
        match outcome {
            ReadOutcome::Missing => if is_main_index(*path) {
                is_not_found(r)
            } else {
                is_plain_not_found(r)
            },
            ReadOutcome::NotOpened => is_plain_not_found(r),
            ReadOutcome::NotRead => r matches StaticStep::Fail { status, message } && status
                == Status::Success && message@ == "failed to read file"@,
            ReadOutcome::Finished => r matches StaticStep::Reply { content_type } && content_type@
                == content_type_of(opt_str(extension)),
        },
{
    proof {
        reveal_strlit("");
        assert(""@ =~= Seq::<char>::empty());
    }
    match outcome {
        ReadOutcome::Missing => if path.index && str_eq(path.relative.as_str(), "") {
            not_found()
        } else {
            plain_not_found()
        },
        ReadOutcome::NotOpened => plain_not_found(),
        ReadOutcome::NotRead => StaticStep::Fail {
            status: Status::Success,
            message: "failed to read file",
        },
        ReadOutcome::Finished => StaticStep::Reply { content_type: content_type(extension) },
    }
}


// Laws.

/// A path of the API is never a file. Every other path is looked for among the files, without its
/// leading slashes, if there is a platform with a UI.
pub proof fn lemma_paths_lead_to_files(
    platform: Option<&MinitursoConfig>,
    path: &str,
    slashes: nat,
    rest: Seq<char>,
    r: StaticStep,
)
    requires
        call_ensures(admin_static, (platform, path), r),
        path@ == copies("/"@, slashes) + rest,
        !"/"@.is_prefix_of(rest),
    ensures
        "/api/"@.is_prefix_of(path@) ==> (r matches StaticStep::Fail { status, message }
            && status.spec_code() == 404),
        !"/api/"@.is_prefix_of(path@) && (platform matches Some(config) && config.public_dir is Some)
            ==> (r matches StaticStep::Probe { relative } && relative@ == rest),
        !"/api/"@.is_prefix_of(path@) && (platform matches Some(config) && config.public_dir is None)
            ==> (r matches StaticStep::Fail { status, message } && status.spec_code() == 404),
        !"/api/"@.is_prefix_of(path@) && platform is None ==> (r matches StaticStep::Fail {
            status,
            message,
        } && status.spec_code() == 200 && message@ == "Not found"@),
{
    reveal_strlit("/");
    lemma_strip_copies("/"@, slashes, rest);
}

/// A file that is there is read where it lies, a directory by its index. In place of one that is
/// not there the index of the UI is read, whatever was asked for.
pub proof fn lemma_what_is_read(
    relative: String,
    is_dir: bool,
    path: StaticPath,
    found: bool,
    read: StaticPath,
)
    requires
        call_ensures(static_after_probe, (relative, is_dir), StaticStep::Check { path }),
        call_ensures(static_after_check, (path, found), StaticStep::Read { path: read }),
    ensures
        found ==> read.relative@ == relative@ && read.index == is_dir,
        !found ==> read.relative@.len() == 0 && read.index,
{
}

/// Looking for a file always leads to reading one.
pub proof fn lemma_files_go_on(
    relative: String,
    is_dir: bool,
    probed: StaticStep,
    path: StaticPath,
    found: bool,
    checked: StaticStep,
)
    requires
        call_ensures(static_after_probe, (relative, is_dir), probed),
        call_ensures(static_after_check, (path, found), checked),
    ensures
        probed is Check,
        checked is Read,
{
}

/// A file that was read is the answer, with the type of its extension; a file without an extension
/// has the type of plain bytes. Only a missing index of the UI is answered with `404`, and nothing
/// else that goes wrong yields a file.
pub proof fn lemma_answer_of_a_file(
    path: &StaticPath,
    outcome: ReadOutcome,
    extension: Option<&str>,
    r: StaticStep,
    named: &'static str,
)
    requires
        call_ensures(static_after_read, (path, outcome, extension), r),
        call_ensures(content_type, (extension,), named),
    ensures
        outcome == ReadOutcome::Finished ==> (r matches StaticStep::Reply { content_type }
            && content_type@ == named@),
        outcome != ReadOutcome::Finished ==> (r matches StaticStep::Fail { status, message } && (
        status.spec_code() == 404 <==> outcome == ReadOutcome::Missing && path.index
            && path.relative@.len() == 0) && (status.spec_code() == 404 || status.spec_code()
            == 200) && message@ == if outcome == ReadOutcome::NotRead {
            "failed to read file"@
        } else {
            "Not found"@
        }),
        extension is None ==> named@ == "application/octet-stream"@,
        extension matches Some(e) ==> (e@ != "html"@ && e@ != "js"@ && e@ != "css"@ && e@ != "json"@
            && e@ != "svg"@ && e@ != "png"@ && e@ != "ico"@ && e@ != "woff2"@ ==> named@
            == "application/octet-stream"@),
        extension matches Some(e) ==> {
            &&& named@ == "text/html; charset=utf-8"@ <==> e@ == "html"@
            &&& named@ == "application/javascript"@ <==> e@ == "js"@
            &&& named@ == "text/css"@ <==> e@ == "css"@
            &&& named@ == "application/json"@ <==> e@ == "json"@
            &&& named@ == "image/svg+xml"@ <==> e@ == "svg"@
            &&& named@ == "image/png"@ <==> e@ == "png"@
            &&& named@ == "image/x-icon"@ <==> e@ == "ico"@
            &&& named@ == "font/woff2"@ <==> e@ == "woff2"@
        },
{
    reveal_strlit("");
    assert(path.relative@.len() == 0 ==> path.relative@ =~= Seq::<char>::empty());
    reveal_strlit("text/html; charset=utf-8");
    reveal_strlit("application/javascript");
    reveal_strlit("text/css");
    reveal_strlit("application/json");
    reveal_strlit("image/svg+xml");
    reveal_strlit("image/png");
    reveal_strlit("image/x-icon");
    reveal_strlit("font/woff2");
    reveal_strlit("application/octet-stream");
    reveal_strlit("html");
    reveal_strlit("js");
    reveal_strlit("css");
    reveal_strlit("json");
    reveal_strlit("svg");
    reveal_strlit("png");
    reveal_strlit("ico");
    reveal_strlit("woff2");
    assert("js"@.len() == 2 && "json"@.len() == 4);
    assert("html"@[0] == 'h' && "js"@[0] == 'j' && "css"@[0] == 'c' && "json"@[0] == 'j');
    assert("svg"@[0] == 's' && "png"@[0] == 'p' && "ico"@[0] == 'i' && "woff2"@[0] == 'w');
    assert("text/html; charset=utf-8"@.len() == 24);
    assert("application/javascript"@.len() == 22);
    assert("text/css"@.len() == 8);
    assert("application/json"@.len() == 16);
    assert("image/svg+xml"@.len() == 13);
    assert("image/png"@.len() == 9);
    assert("image/x-icon"@.len() == 12);
    assert("font/woff2"@.len() == 10);
    assert("application/octet-stream"@.len() == 24);
    assert("application/octet-stream"@[0] == 'a');
    assert("text/html; charset=utf-8"@[0] == 't');
}


/// A UI that is there is searched for the path without its leading slashes; one that is not there
/// has no files.
pub proof fn lemma_serve_static(
    config: &MinitursoConfig,
    path: &str,
    slashes: nat,
    rest: Seq<char>,
    r: StaticStep,
)
    requires
        call_ensures(serve_static, (config, path), r),
        path@ == copies("/"@, slashes) + rest,
        !"/"@.is_prefix_of(rest),
    ensures
        config.public_dir is Some ==> (r matches StaticStep::Probe { relative } && relative@
            == rest),
        config.public_dir is None ==> (r matches StaticStep::Fail { status, message }
            && status.spec_code() == 404),
{
    reveal_strlit("/");
    lemma_strip_copies("/"@, slashes, rest);
}

} // verus!
