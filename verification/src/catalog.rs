//! The catalog of remote versions: what a version record holds, how the
//! records of the metadata document are normalized, and how the document is
//! read.

use vstd::prelude::*;
use vstd::string::StringExecFns;
use crate::json::{
    items, items_in, json_model, json_parse, member, member_of, parse_document, text, text_in,
    JsonModel,
};
use crate::text::{has_substring, leading_run, same_text, str_contains, strip_leading};

verus! {

/// The release channel of a version.
#[derive(Clone, Debug, PartialEq, Eq)]
pub enum Channel {
    Stable,
    Rc,
    Preview,
    Dev,
    /// A channel that the catalog names and this library does not know.
    Other(String),
}

/// What a channel stands for.
pub enum ChannelModel {
    Stable,
    Rc,
    Preview,
    Dev,
    Other(Seq<char>),
}

impl View for Channel {
    type V = ChannelModel;

    open spec fn view(&self) -> ChannelModel {
        match self {
            Channel::Stable => ChannelModel::Stable,
            Channel::Rc => ChannelModel::Rc,
            Channel::Preview => ChannelModel::Preview,
            Channel::Dev => ChannelModel::Dev,
            Channel::Other(s) => ChannelModel::Other(s@),
        }
    }
}

/// The name under which a channel is shown and filtered.
pub open spec fn label_of(c: ChannelModel) -> Seq<char> {
    match c {
        ChannelModel::Stable => "stable"@,
        ChannelModel::Rc => "rc"@,
        ChannelModel::Preview => "preview"@,
        ChannelModel::Dev => "dev"@,
        ChannelModel::Other(s) => s,
    }
}

/// The channel that a name stands for.
pub open spec fn channel_named(label: Seq<char>) -> ChannelModel {
    if label == "stable"@ {
        ChannelModel::Stable
    } else if label == "rc"@ {
        ChannelModel::Rc
    } else if label == "preview"@ {
        ChannelModel::Preview
    } else if label == "dev"@ {
        ChannelModel::Dev
    } else {
        ChannelModel::Other(label)
    }
}

/// The channel that is read off a version name where the catalog gives
/// none: the first of `rc`, `dev`, `pre` that occurs in the name decides, and
/// a name that holds none of them is stable.
pub open spec fn inferred_channel(raw: Seq<char>) -> ChannelModel {
    if has_substring(raw, "rc"@) {
        ChannelModel::Rc
    } else if has_substring(raw, "dev"@) {
        ChannelModel::Dev
    } else if has_substring(raw, "pre"@) {
        ChannelModel::Preview
    } else {
        ChannelModel::Stable
    }
}

impl Channel {
    /// The name under which the channel is shown and filtered.
    pub fn label(&self) -> (s: String)
        ensures
            s@ == label_of(self@),
    {
        match self {
            Channel::Stable => String::from_str("stable"),
            Channel::Rc => String::from_str("rc"),
            Channel::Preview => String::from_str("preview"),
            Channel::Dev => String::from_str("dev"),
            Channel::Other(s) => s.clone(),
        }
    }

    /// The channel that a name stands for.
    pub fn from_label(label: &str) -> (c: Channel)
        ensures
            c@ == channel_named(label@),
    {
        if same_text(label, "stable") {
            Channel::Stable
        } else if same_text(label, "rc") {
            Channel::Rc
        } else if same_text(label, "preview") {
            Channel::Preview
        } else if same_text(label, "dev") {
            Channel::Dev
        } else {
            Channel::Other(String::from_str(label))
        }
    }

    /// The channel that is read off a version name.
    pub fn infer(raw: &str) -> (c: Channel)
        ensures
            c@ == inferred_channel(raw@),
    {
        if str_contains(raw, "rc") {
            Channel::Rc
        } else if str_contains(raw, "dev") {
            Channel::Dev
        } else if str_contains(raw, "pre") {
            Channel::Preview
        } else {
            Channel::Stable
        }
    }

    /// A copy of the channel.
    pub fn duplicate(&self) -> (c: Channel)
        ensures
            c == *self,
    {
        match self {
            Channel::Stable => Channel::Stable,
            Channel::Rc => Channel::Rc,
            Channel::Preview => Channel::Preview,
            Channel::Dev => Channel::Dev,
            Channel::Other(s) => Channel::Other(s.clone()),
        }
    }
}

/// One version of the catalog: its name without the leading `v`, and its
/// channel.
#[derive(Clone, Debug, PartialEq, Eq)]
pub struct VersionInfo {
    pub ver: String,
    pub kind: Channel,
}

/// What a version record stands for.
pub struct VersionInfoModel {
    pub ver: Seq<char>,
    pub kind: ChannelModel,
}

impl View for VersionInfo {
    type V = VersionInfoModel;

    open spec fn view(&self) -> VersionInfoModel {
        VersionInfoModel { ver: self.ver@, kind: self.kind@ }
    }
}

impl VersionInfo {
    /// A copy of the record.
    pub fn duplicate(&self) -> (r: VersionInfo)
        ensures
            r == *self,
    {
        VersionInfo { ver: self.ver.clone(), kind: self.kind.duplicate() }
    }
}

/// What a list of version records stands for.
pub open spec fn info_models(list: Seq<VersionInfo>) -> Seq<VersionInfoModel> {
    Seq::new(list.len(), |i: int| list[i]@)
}

/// Why the catalog could not be had.
#[derive(Clone, Debug, PartialEq, Eq)]
pub enum FetchError {
    /// The request failed; the text says how.
    Network(String),
    /// The answer is no JSON document, or holds no array of versions.
    Shape,
}

/// The record that is made of one entry of the document: a missing name
/// counts as empty, every leading `v` is dropped from the name, and the
/// channel is the one the entry names or, where it names none, the one read
/// off the name as the entry gives it.
pub open spec fn entry_model(name: Option<Seq<char>>, kind: Option<Seq<char>>)
    -> VersionInfoModel {
    let raw = match name {
        Some(s) => s,
        None => Seq::empty(),
    };
    VersionInfoModel {
        ver: raw.skip(leading_run(raw, 'v')),
        kind: match kind {
            Some(label) => channel_named(label),
            None => inferred_channel(raw),
        },
    }
}

/// The record that is made of one JSON entry.
pub open spec fn entry_of_json(m: JsonModel) -> VersionInfoModel {
    entry_model(text_in(member_of(m, "name"@)), text_in(member_of(m, "type"@)))
}

/// The records of a document, in its order; nothing where the document
/// holds no array under `gameversions`.
pub open spec fn catalog_spec(doc: JsonModel) -> Option<Seq<VersionInfoModel>> {
    match items_in(member_of(doc, "gameversions"@)) {
        Some(entries) => Some(Seq::new(entries.len(), |i: int| entry_of_json(entries[i]))),
        None => None,
    }
}

/// What reading a response body gives.
pub open spec fn parsed_catalog(body: Seq<char>) -> Option<Seq<VersionInfoModel>> {
    match json_parse(body) {
        Some(doc) => catalog_spec(doc),
        None => None,
    }
}

/// Makes the record of one entry from its name and its channel name, as far
/// as the entry has them.
pub fn normalize_entry(name: Option<&str>, kind: Option<&str>) -> (info: VersionInfo)
    ensures
        info@ == entry_model(
            match name {
                Some(s) => Some(s@),
                None => None,
            },
            match kind {
                Some(s) => Some(s@),
                None => None,
            },
        ),
{
    let raw: &str = match name {
        Some(s) => s,
        None => {
            proof {
                reveal_strlit("");
            }
            assert(""@ =~= Seq::<char>::empty());
            ""
        },
    };
    let ver = strip_leading(raw, 'v');
    let channel = match kind {
        Some(label) => Channel::from_label(label),
        None => Channel::infer(raw),
    };
    VersionInfo { ver, kind: channel }
}

/// Reads the records out of a parsed document.
fn catalog_of(doc: &serde_json::Value) -> (r: Result<Vec<VersionInfo>, FetchError>)
    ensures
        match r {
            Ok(list) => catalog_spec(json_model(*doc)) == Some(info_models(list@)),
            Err(e) => e is Shape && catalog_spec(json_model(*doc)).is_none(),
        },
{
    match items(member(doc, "gameversions")) {
        None => Err(FetchError::Shape),
        Some(entries) => {
            let ghost models = items_in(member_of(json_model(*doc), "gameversions"@)).unwrap();
            let mut list: Vec<VersionInfo> = Vec::new();
            let mut i: usize = 0;
            while i < entries.len()
                invariant
                    i <= entries.len(),
                    models.len() == entries.len(),
                    forall|j: int| 0 <= j < entries.len() ==> models[j] == json_model(entries@[j]),
                    list.len() == i,
                    forall|j: int| 0 <= j < i ==> list@[j]@ == entry_of_json(models[j]),
                decreases entries.len() - i,
            {
                let entry = &entries[i];
                let info = normalize_entry(text(member(entry, "name")), text(member(entry, "type")));
                list.push(info);
                i += 1;
            }
            assert(info_models(list@) =~= Seq::new(
                models.len(),
                |i: int| entry_of_json(models[i]),
            ));
            Ok(list)
        },
    }
}

/// Reads the records out of a response body.
///
/// Succeeds exactly when the body is a JSON document that holds an array
/// under `gameversions`; every other body is a shape error.
pub fn parse_catalog(body: &str) -> (r: Result<Vec<VersionInfo>, FetchError>)
    ensures
        match r {
            Ok(list) => parsed_catalog(body@) == Some(info_models(list@)),
            Err(e) => e is Shape && parsed_catalog(body@).is_none(),
        },
{
    match parse_document(body) {
        Some(doc) => catalog_of(&doc),
        None => Err(FetchError::Shape),
    }
}

/// What a finished request for the catalog amounts to: the records of its
/// body, a shape error where the body holds none, and a network error where
/// the request itself failed.
pub fn catalog_from_response(response: Result<String, String>) -> (r: Result<
    Vec<VersionInfo>,
    FetchError,
>)
    ensures
        match response {
            Ok(body) => match r {
                Ok(list) => parsed_catalog(body@) == Some(info_models(list@)),
                Err(e) => e is Shape && parsed_catalog(body@).is_none(),
            },
            Err(reason) => r matches Err(FetchError::Network(text)) && text@ == reason@,
        },
{
    match response {
        Ok(body) => parse_catalog(body.as_str()),
        Err(reason) => Err(FetchError::Network(reason)),
    }
}

} // verus!
