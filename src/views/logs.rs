use vstd::prelude::*;

verus! {

/// One matched log entry as reported to clients.
#[derive(Clone, Debug)]
pub struct Message {
    pub message: String,
    pub host: String,
    pub index: String,
    pub timestamp: String,
    pub id: String,
}

/// The answer to a search: the matched entries, newest first, and the number
/// of documents that matched, which may exceed the number returned.
#[derive(Clone, Debug)]
pub struct LogResponse {
    pub messages: Vec<Message>,
    pub total: u64,
}

/// Search parameters as a caller supplies them: every one may be missing.
#[derive(Clone, Debug)]
pub struct LogsQueryParameters {
    pub search_text: Option<String>,
    pub index: Option<String>,
    pub size: Option<u64>,
    pub min_timestamp: Option<String>,
    pub max_timestamp: Option<String>,
}

/// The content of a `Message`.
pub struct MessageModel {
    pub message: Seq<char>,
    pub host: Seq<char>,
    pub index: Seq<char>,
    pub timestamp: Seq<char>,
    pub id: Seq<char>,
}

/// The content of a `LogResponse`.
pub struct LogResponseModel {
    pub messages: Seq<MessageModel>,
    pub total: u64,
}

/// The content of a `LogsQueryParameters`.
pub struct ParamsModel {
    pub search_text: Option<Seq<char>>,
    pub index: Option<Seq<char>>,
    pub size: Option<u64>,
    pub min_timestamp: Option<Seq<char>>,
    pub max_timestamp: Option<Seq<char>>,
}

pub open spec fn text_model(o: Option<String>) -> Option<Seq<char>> {
    match o {
        Some(s) => Some(s@),
        None => None,
    }
}

pub open spec fn text_or(o: Option<Seq<char>>, default: Seq<char>) -> Seq<char> {
    match o {
        Some(s) => s,
        None => default,
    }
}

/// The index pattern that selects every index.
pub open spec fn all_indices() -> Seq<char> {
    "**"@
}

/// The number of hits asked for when the caller names none.
pub open spec fn default_size() -> u64 {
    100
}

/// The lower timestamp bound when the caller names none: the epoch.
pub open spec fn earliest_timestamp() -> Seq<char> {
    "1970-01-01T00:00:00Z"@
}

/// The upper timestamp bound when the caller names none: a far-future instant.
pub open spec fn latest_timestamp() -> Seq<char> {
    "2040-01-01T00:00:00Z"@
}

impl View for Message {
    type V = MessageModel;

    open spec fn view(&self) -> MessageModel {
        MessageModel {
            message: self.message@,
            host: self.host@,
            index: self.index@,
            timestamp: self.timestamp@,
            id: self.id@,
        }
    }
}

impl View for LogResponse {
    type V = LogResponseModel;

    open spec fn view(&self) -> LogResponseModel {
        LogResponseModel { messages: self.messages@.map_values(|m: Message| m@), total: self.total }
    }
}

impl View for LogsQueryParameters {
    type V = ParamsModel;

    open spec fn view(&self) -> ParamsModel {
        ParamsModel {
            search_text: text_model(self.search_text),
            index: text_model(self.index),
            size: self.size,
            min_timestamp: text_model(self.min_timestamp),
            max_timestamp: text_model(self.max_timestamp),
        }
    }
}

impl ParamsModel {
    /// Every parameter that the backend query needs is present.
    pub open spec fn is_resolved(self) -> bool {
        &&& self.index is Some
        &&& self.size is Some
        &&& self.min_timestamp is Some
        &&& self.max_timestamp is Some
    }

    /// Each missing parameter replaced by its default; present ones kept.
    pub open spec fn with_defaults(self) -> ParamsModel {
        ParamsModel {
            search_text: Some(text_or(self.search_text, Seq::empty())),
            index: Some(text_or(self.index, all_indices())),
            size: Some(
                match self.size {
                    Some(n) => n,
                    None => default_size(),
                },
            ),
            min_timestamp: Some(text_or(self.min_timestamp, earliest_timestamp())),
            max_timestamp: Some(text_or(self.max_timestamp, latest_timestamp())),
        }
    }
}

impl LogsQueryParameters {
    /// Returns the parameters with every missing one set to its default: no
    /// search text becomes the empty text, no index the pattern of all
    /// indices, no size 100, and missing timestamp bounds the epoch and
    /// 2040-01-01T00:00:00Z.
    #[must_use]
    pub fn with_defaults(self) -> (r: Self)
        ensures
            r@ == self@.with_defaults(),
            r@.is_resolved(),
            r@.search_text is Some,
            self@.index is None ==> r@.index == Some(all_indices()),
            self@.size is None ==> r@.size == Some(default_size()),
            self@.min_timestamp is None ==> r@.min_timestamp == Some(earliest_timestamp()),
            self@.max_timestamp is None ==> r@.max_timestamp == Some(latest_timestamp()),
    {
        let search_text = match self.search_text {
            Some(t) => t,
            None => String::new(),
        };
        let index = match self.index {
            Some(i) => i,
            None => "**".to_string(),
        };
        let size: u64 = match self.size {
            Some(n) => n,
            None => 100,
        };
        let min_timestamp = match self.min_timestamp {
            Some(t) => t,
            None => "1970-01-01T00:00:00Z".to_string(),
        };
        let max_timestamp = match self.max_timestamp {
            Some(t) => t,
            None => "2040-01-01T00:00:00Z".to_string(),
        };
        LogsQueryParameters {
            search_text: Some(search_text),
            index: Some(index),
            size: Some(size),
            min_timestamp: Some(min_timestamp),
            max_timestamp: Some(max_timestamp),
        }
    }
}

} // verus!
