//! The static news item.

use vstd::prelude::*;

verus! {

/// A news record: the day it is for and its content.
#[derive(Debug, Clone, PartialEq)]
pub struct News {
    pub day: String,
    pub content: String,
}

/// Mathematical model of a news record.
#[verifier::ext_equal]
pub ghost struct NewsView {
    pub day: Seq<char>,
    pub content: Seq<char>,
}

impl View for News {
    type V = NewsView;

    open spec fn view(&self) -> NewsView {
        NewsView { day: self.day@, content: self.content@ }
    }
}

/// The one fixed news item the service ever reports.
pub open spec fn todays_news() -> NewsView {
    NewsView { day: "today"@, content: "Shamiko is going to go on date with Momo."@ }
}

/// Returns the fixed news item; every call yields the same value.
pub fn todays_shami_momo() -> (r: News)
    ensures
        r@ == todays_news(),
{
    News {
        day: "today".to_owned(),
        content: "Shamiko is going to go on date with Momo.".to_owned(),
    }
}

} // verus!
