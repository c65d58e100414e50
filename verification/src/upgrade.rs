//! The decisions of `update`: whether the latest release is newer than the
//! running version, which of its assets to download, and the binary that a
//! downloaded archive yields once its checksum is verified. Reaching the
//! releases API, downloading and swapping the executable are the caller's.
use vstd::prelude::*;

use crate::dispatch::object;
use crate::json::{json_model, lemma_members_model, members_model, Json, JsonModel};
use crate::text::{concat, owned, trim_start_char, trim_start_matches};
use crate::update::{
    archive_name, archive_name_spec, archive_ext, binary_file_name, binary_file_name_spec, checksum_spec,
    extract_binary, extract_result, extract_spec, semver_parse, verify_checksum, version_string, version_text,
    Asset, Release, UpdateError,
};

verus! {

/// Whether the semver crate orders the version `latest` after `current`, or
/// `None` when either text is no semantic version (see [`newer_version`]).
pub uninterp spec fn semver_newer(latest: Seq<char>, current: Seq<char>) -> Option<bool>;

/// Parses both texts with `semver::Version::parse` and compares them with
/// the `Ord` of `semver::Version` (precedence: major, minor, patch, then
/// pre-release; a version is never after itself). The contract names the
/// result, a function of the two texts, says that it is `Some` exactly when
/// both texts parse (the parse that [`semver_parse`] names), and that equal
/// texts are not ordered one after the other.
#[verifier::external_body]
fn newer_version(latest: &str, current: &str) -> (r: Option<bool>)
    ensures
        r == semver_newer(latest@, current@),
        r is Some <==> (semver_parse(latest@) is Some && semver_parse(current@) is Some),
        latest@ == current@ ==> r != Some(true),
{
    match (semver::Version::parse(latest), semver::Version::parse(current)) {
        (Ok(l), Ok(c)) => Some(l > c),
        _ => None,
    }
}

/// The name of the checksums asset of a release.
pub open spec fn sums_name() -> Seq<char> {
    "SHA256SUMS"@
}

/// Whether `i` is the index of the first asset called `name`.
pub open spec fn first_named(assets: Seq<Asset>, name: Seq<char>, i: int) -> bool {
    &&& 0 <= i < assets.len()
    &&& assets[i].name@ == name
    &&& forall|j: int| 0 <= j < i ==> (#[trigger] assets[j]).name@ != name
}

/// Whether some asset is called `name`.
pub open spec fn has_named(assets: Seq<Asset>, name: Seq<char>) -> bool {
    exists|i: int| 0 <= i < assets.len() && (#[trigger] assets[i]).name@ == name
}

/// What `update --check` prints.
pub open spec fn check_output(current: Seq<char>, latest: Seq<char>, newer: bool) -> JsonModel {
    object(seq![("current"@, JsonModel::Str(current)), ("latest"@, JsonModel::Str(latest)),
        ("update_available"@, JsonModel::Bool(newer))])
}

/// What `update` prints when the running version is the latest.
pub open spec fn current_output(current: Seq<char>, latest: Seq<char>) -> JsonModel {
    object(seq![("updated"@, JsonModel::Bool(false)), ("current"@, JsonModel::Str(current)),
        ("latest"@, JsonModel::Str(latest))])
}

/// What `update` prints once the new executable is in place.
pub open spec fn updated_output_model(current: Seq<char>, latest: Seq<char>, path: Seq<char>) -> JsonModel {
    object(seq![("updated"@, JsonModel::Bool(true)), ("current"@, JsonModel::Str(current)),
        ("latest"@, JsonModel::Str(latest)), ("path"@, JsonModel::Str(path))])
}

/// The message of the error for a running version that is no semantic
/// version.
pub open spec fn current_version_message(current: Seq<char>) -> Seq<char> {
    "current version "@ + current + " is not a semantic version"@
}

/// The assets that an update downloads, and what it looks for in them.
#[derive(Debug)]
pub struct UpdateDownload {
    pub current: String,
    pub latest: String,
    pub archive_name: String,
    pub ext: &'static str,
    pub binary: String,
    pub archive_url: String,
    pub sums_url: String,
}

/// What `update` does after reading the latest release: print a report
/// (`--check`), print that the running version is current, or download.
#[derive(Debug)]
pub enum UpdatePlan {
    Report(Json),
    Current(Json),
    Download(UpdateDownload),
}

/// The decision of `update` on the latest release, for the running version
/// `current` built for `target`. With `check`, it only reports whether the
/// release is newer. Otherwise nothing is downloaded unless the release is
/// newer; then it needs the archive built for `target` (`NoAsset`) and the
/// `SHA256SUMS` asset (`NoChecksums`). A tag that is no semantic version
/// after its leading `v`s gives `Parse`, and so does a running version that
/// is none.
pub fn plan_update(release: &Release, current: &str, target: &str, check: bool) -> (r: Result<UpdatePlan, UpdateError>)
    ensures
        trim_start_char(release.tag_name@, 'v') == current@ ==> !(r matches Ok(UpdatePlan::Download(_))),
        ({
            let tag = trim_start_char(release.tag_name@, 'v');
            match semver_parse(tag) {
                None => r matches Err(UpdateError::Parse(_)),
                Some(lv) => match semver_newer(tag, current@) {
                    None => r matches Err(UpdateError::Parse(m)) && m@ == current_version_message(current@),
                    Some(newer) => if check {
                        r matches Ok(UpdatePlan::Report(j)) && json_model(j) == check_output(current@, version_text(lv), newer)
                    } else if !newer {
                        r matches Ok(UpdatePlan::Current(j)) && json_model(j) == current_output(current@, version_text(lv))
                    } else if !has_named(release.assets@, archive_name_spec(lv, target@)) {
                        r matches Err(UpdateError::NoAsset { tag: t, target: g })
                            && t@ == release.tag_name@ && g@ == target@
                    } else if !has_named(release.assets@, sums_name()) {
                        r matches Err(UpdateError::NoChecksums { tag: t }) && t@ == release.tag_name@
                    } else {
                        r matches Ok(UpdatePlan::Download(d)) && {
                            &&& d.current@ == current@
                            &&& d.latest@ == version_text(lv)
                            &&& d.archive_name@ == archive_name_spec(lv, target@)
                            &&& d.ext@ == archive_ext(target@)
                            &&& d.binary@ == binary_file_name_spec(target@)
                            &&& exists|i: int| first_named(release.assets@, d.archive_name@, i)
                                && release.assets@[i].browser_download_url@ == d.archive_url@
                            &&& exists|i: int| first_named(release.assets@, sums_name(), i)
                                && release.assets@[i].browser_download_url@ == d.sums_url@
                        }
                    },
                },
            }
        }),
{
    let latest = match release.version() {
        Ok(v) => v,
        Err(e) => {
            return Err(e);
        },
    };
    let tag = trim_start_matches(release.tag_name.as_str(), 'v');
    let newer = match newer_version(tag.as_str(), current) {
        Some(n) => n,
        None => {
            let m = concat("current version ", current);
            let m = concat(m.as_str(), " is not a semantic version");
            return Err(UpdateError::Parse(m));
        },
    };
    let latest_text = version_string(&latest);
    if check {
        let ms = vec![
            (owned("current"), Json::Str(owned(current))),
            (owned("latest"), Json::Str(latest_text)),
            (owned("update_available"), Json::Bool(newer)),
        ];
        proof {
            lemma_members_model(ms@);
            assert(members_model(ms@) =~= seq![("current"@, JsonModel::Str(current@)),
                ("latest"@, JsonModel::Str(version_text(latest@))), ("update_available"@, JsonModel::Bool(newer))]);
        }
        return Ok(UpdatePlan::Report(Json::Object(ms)));
    }
    if !newer {
        let ms = vec![
            (owned("updated"), Json::Bool(false)),
            (owned("current"), Json::Str(owned(current))),
            (owned("latest"), Json::Str(latest_text)),
        ];
        proof {
            lemma_members_model(ms@);
            assert(members_model(ms@) =~= seq![("updated"@, JsonModel::Bool(false)),
                ("current"@, JsonModel::Str(current@)), ("latest"@, JsonModel::Str(version_text(latest@)))]);
        }
        return Ok(UpdatePlan::Current(Json::Object(ms)));
    }
    let (name, ext) = archive_name(&latest, target);
    let archive_url = match release.asset(name.as_str()) {
        Some(a) => {
            proof {
                let i = choose|i: int| 0 <= i < release.assets@.len() && release.assets@[i] == *a
                    && a.name@ == name@ && forall|j: int| 0 <= j < i ==> (#[trigger] release.assets@[j]).name@ != name@;
                assert(first_named(release.assets@, name@, i));
                assert(has_named(release.assets@, name@));
            }
            a.browser_download_url.clone()
        },
        None => {
            return Err(UpdateError::NoAsset { tag: release.tag_name.clone(), target: owned(target) });
        },
    };
    let sums_url = match release.asset("SHA256SUMS") {
        Some(a) => {
            proof {
                let i = choose|i: int| 0 <= i < release.assets@.len() && release.assets@[i] == *a
                    && a.name@ == sums_name() && forall|j: int| 0 <= j < i ==> (#[trigger] release.assets@[j]).name@ != sums_name();
                assert(first_named(release.assets@, sums_name(), i));
                assert(has_named(release.assets@, sums_name()));
            }
            a.browser_download_url.clone()
        },
        None => {
            return Err(UpdateError::NoChecksums { tag: release.tag_name.clone() });
        },
    };
    Ok(UpdatePlan::Download(UpdateDownload {
        current: owned(current),
        latest: latest_text,
        archive_name: name,
        ext,
        binary: binary_file_name(target),
        archive_url,
        sums_url,
    }))
}

/// The new executable in a downloaded archive: the archive must have the
/// digest that `SHA256SUMS` lists for it, and then holds the binary (see
/// [`extract_binary`]). No bytes come out of an archive that fails the
/// check.
pub fn verified_binary(download: &UpdateDownload, sums: &str, archive: &[u8]) -> (r: Result<Vec<u8>, UpdateError>)
    ensures
        r is Ok ==> checksum_spec(sums@, download.archive_name@, archive@) is Ok,
        match checksum_spec(sums@, download.archive_name@, archive@) {
            Err(e) => r matches Err(x) && x@ == e,
            Ok(_) => extract_result(r, extract_spec(archive@, download.ext@, download.binary@), download.binary@),
        },
{
    match verify_checksum(sums, download.archive_name.as_str(), archive) {
        Err(e) => Err(e),
        Ok(()) => extract_binary(archive, download.ext, download.binary.as_str()),
    }
}

/// What `update` prints once the new executable is at `path`.
pub fn updated_output(download: &UpdateDownload, path: &str) -> (j: Json)
    ensures
        json_model(j) == updated_output_model(download.current@, download.latest@, path@),
{
    let ms = vec![
        (owned("updated"), Json::Bool(true)),
        (owned("current"), Json::Str(download.current.clone())),
        (owned("latest"), Json::Str(download.latest.clone())),
        (owned("path"), Json::Str(owned(path))),
    ];
    proof {
        lemma_members_model(ms@);
        assert(members_model(ms@) =~= seq![("updated"@, JsonModel::Bool(true)),
            ("current"@, JsonModel::Str(download.current@)), ("latest"@, JsonModel::Str(download.latest@)),
            ("path"@, JsonModel::Str(path@))]);
    }
    Json::Object(ms)
}

} // verus!
