//! The card catalog model: the record shapes the remote database returns,
//! the failure type of the tool, and the checks that turn a raw response
//! and a raw card into displayable values.

use vstd::prelude::*;

verus! {

/// One artwork reference of a card; the location may be absent upstream.
#[derive(Debug)]
pub struct CardImage {
    pub image_url: Option<Vec<u8>>,
}

/// One card record as the remote database returns it.  Every field may be
/// absent; a field needed for display is checked at the display step.
#[derive(Debug)]
pub struct Card {
    pub name: Option<Vec<u8>>,
    pub id: Option<i32>,
    pub atk: Option<i32>,
    pub def: Option<i32>,
    pub archetype: Option<Vec<u8>>,
    pub card_images: Vec<CardImage>,
    pub desc: Option<Vec<u8>>,
}

/// The cards one search returned, in the order the server sent them; that
/// order defines the indices shown to the user.
#[derive(Debug)]
pub struct SearchResult {
    pub cards: Vec<Card>,
}

/// Everything that can go wrong between a query and a rendered card.
#[derive(Clone, Copy, PartialEq, Eq, Structural, Debug)]
pub enum Fail {
    /// The transport itself failed, or the response could not be decoded.
    NetworkFail,
    /// The server answered with a non-success status or with zero cards.
    EmptyResult,
    MissingName,
    MissingAtk,
    MissingDef,
    MissingDesc,
    MissingImageUrl,
}

/// An HTTP status in the success range.
pub open spec fn is_success_status(status: int) -> bool {
    200 <= status < 300
}

/// Classify one search response.  `None` stands for a transport failure
/// that yielded no response at all; otherwise the HTTP status and the
/// decoded records are judged: a non-success status and an empty record
/// list are both the recoverable empty result, and a non-empty list is
/// returned as the search result with the server's order untouched.
pub fn search_outcome(response: Option<(u16, Vec<Card>)>) -> (r: Result<SearchResult, Fail>)
    ensures
        match response {
            None => r == Err::<SearchResult, Fail>(Fail::NetworkFail),
            Some((status, cards)) => {
                if !is_success_status(status as int) || cards@.len() == 0 {
                    r == Err::<SearchResult, Fail>(Fail::EmptyResult)
                } else {
                    r is Ok && r->Ok_0.cards == cards
                }
            },
        },
{
    match response {
        None => Err(Fail::NetworkFail),
        Some((status, cards)) => {
            if !(200 <= status && status < 300) {
                Err(Fail::EmptyResult)
            } else if cards.len() == 0 {
                Err(Fail::EmptyResult)
            } else {
                Ok(SearchResult { cards })
            }
        },
    }
}

/// The fields the detail lines need, present and owned.
#[derive(Debug)]
pub struct CardDetails {
    pub name: Vec<u8>,
    pub atk: i32,
    pub def: i32,
}

/// Check the fields the detail display needs.  The first absent field, in
/// display order, names the failure.
pub fn card_details(c: &Card) -> (r: Result<CardDetails, Fail>)
    ensures
        match r {
            Ok(d) => c.name is Some && c.atk is Some && c.def is Some && d.name@
                == c.name->Some_0@ && d.atk == c.atk->Some_0 && d.def == c.def->Some_0,
            Err(e) => (e == Fail::MissingName && c.name is None) || (e == Fail::MissingAtk
                && c.name is Some && c.atk is None) || (e == Fail::MissingDef && c.name is Some
                && c.atk is Some && c.def is None),
        },
{
    let name: &Vec<u8> = match &c.name {
        Some(n) => n,
        None => {
            return Err(Fail::MissingName);
        },
    };
    let atk: i32 = match &c.atk {
        Some(a) => *a,
        None => {
            return Err(Fail::MissingAtk);
        },
    };
    let def: i32 = match &c.def {
        Some(d) => *d,
        None => {
            return Err(Fail::MissingDef);
        },
    };
    let mut copy: Vec<u8> = Vec::new();
    crate::render::append_bytes(&mut copy, name.as_slice());
    proof {
        assert(copy@ =~= name@);
    }
    Ok(CardDetails { name: copy, atk, def })
}

/// The descriptive text of the card, required for the final display line.
pub fn card_desc(c: &Card) -> (r: Result<Vec<u8>, Fail>)
    ensures
        match r {
            Ok(d) => c.desc is Some && d@ == c.desc->Some_0@,
            Err(e) => e == Fail::MissingDesc && c.desc is None,
        },
{
    match &c.desc {
        Some(d) => {
            let mut copy: Vec<u8> = Vec::new();
            crate::render::append_bytes(&mut copy, d.as_slice());
            proof {
                assert(copy@ =~= d@);
            }
            Ok(copy)
        },
        None => Err(Fail::MissingDesc),
    }
}

/// The location of the card's primary artwork: the URL of the first entry
/// of the image list.  An empty list and an absent URL both fail.
pub fn primary_image_url(c: &Card) -> (r: Result<Vec<u8>, Fail>)
    ensures
        match r {
            Ok(u) => c.card_images@.len() > 0 && c.card_images@[0].image_url is Some && u@
                == c.card_images@[0].image_url->Some_0@,
            Err(e) => e == Fail::MissingImageUrl && (c.card_images@.len() == 0
                || c.card_images@[0].image_url is None),
        },
{
    if c.card_images.len() == 0 {
        return Err(Fail::MissingImageUrl);
    }
    let first: &CardImage = &c.card_images[0];
    match &first.image_url {
        Some(u) => {
            let mut copy: Vec<u8> = Vec::new();
            crate::render::append_bytes(&mut copy, u.as_slice());
            proof {
                assert(copy@ =~= u@);
            }
            Ok(copy)
        },
        None => Err(Fail::MissingImageUrl),
    }
}

} // verus!
