//! Plain records for the media metadata the client shows. The surrounding
//! program fills them from the server's answers; field names follow the
//! server's own casing.

#![allow(non_snake_case)]

use vstd::prelude::*;

verus! {

/// An outside link a media item carries.
pub struct Urls {
    pub Name: String,
    pub Url: String,
}

/// One person credited on a media item.
pub struct People {
    pub Name: String,
    pub Id: String,
    pub Role: Option<String>,
    pub Type: String,
}

/// The overview of one media item: its synopsis, links and credits.
pub struct Item {
    pub ExternalUrls: Option<Vec<Urls>>,
    pub Overview: Option<String>,
    pub People: Option<Vec<People>>,
}

/// One library view of the server.
pub struct View {
    pub Name: String,
    pub Id: String,
    pub CollectionType: Option<String>,
}

} // verus!
