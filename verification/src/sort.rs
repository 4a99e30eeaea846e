use vstd::prelude::*;

verus! {

/// How the deal list is ordered. In normal mode the criteria is a server-side
/// parameter; in search mode only `Price` and `Cut` can be applied locally.
#[derive(Debug, Clone, Copy, PartialEq, Eq, Structural)]
pub enum SortCriteria {
    Price,
    Cut,
    Hottest,
    ReleaseDate,
    Expiring,
    Popular,
}

impl SortCriteria {
    /// The short display name of the criteria.
    pub open spec fn spec_name(&self) -> Seq<char> {
        match self {
            SortCriteria::Price => "Price"@,
            SortCriteria::Cut => "Cut"@,
            SortCriteria::Hottest => "Hottest"@,
            SortCriteria::ReleaseDate => "Release"@,
            SortCriteria::Expiring => "Expiring"@,
            SortCriteria::Popular => "Popular"@,
        }
    }

    pub fn name(&self) -> (r: &'static str)
        ensures
            r@ == self.spec_name(),
    {
        match self {
            SortCriteria::Price => "Price",
            SortCriteria::Cut => "Cut",
            SortCriteria::Hottest => "Hottest",
            SortCriteria::ReleaseDate => "Release",
            SortCriteria::Expiring => "Expiring",
            SortCriteria::Popular => "Popular",
        }
    }

    /// The criteria that follows this one in the six-way cycle.
    pub open spec fn spec_next(&self) -> SortCriteria {
        match self {
            SortCriteria::Price => SortCriteria::Cut,
            SortCriteria::Cut => SortCriteria::Hottest,
            SortCriteria::Hottest => SortCriteria::ReleaseDate,
            SortCriteria::ReleaseDate => SortCriteria::Expiring,
            SortCriteria::Expiring => SortCriteria::Popular,
            SortCriteria::Popular => SortCriteria::Price,
        }
    }

    pub fn next(&self) -> (r: Self)
        ensures
            r == self.spec_next(),
    {
        match self {
            SortCriteria::Price => SortCriteria::Cut,
            SortCriteria::Cut => SortCriteria::Hottest,
            SortCriteria::Hottest => SortCriteria::ReleaseDate,
            SortCriteria::ReleaseDate => SortCriteria::Expiring,
            SortCriteria::Expiring => SortCriteria::Popular,
            SortCriteria::Popular => SortCriteria::Price,
        }
    }

    /// The criteria that precedes this one in the six-way cycle.
    pub open spec fn spec_prev(&self) -> SortCriteria {
        match self {
            SortCriteria::Price => SortCriteria::Popular,
            SortCriteria::Cut => SortCriteria::Price,
            SortCriteria::Hottest => SortCriteria::Cut,
            SortCriteria::ReleaseDate => SortCriteria::Hottest,
            SortCriteria::Expiring => SortCriteria::ReleaseDate,
            SortCriteria::Popular => SortCriteria::Expiring,
        }
    }

    pub fn prev(&self) -> (r: Self)
        ensures
            r == self.spec_prev(),
    {
        match self {
            SortCriteria::Price => SortCriteria::Popular,
            SortCriteria::Cut => SortCriteria::Price,
            SortCriteria::Hottest => SortCriteria::Cut,
            SortCriteria::ReleaseDate => SortCriteria::Hottest,
            SortCriteria::Expiring => SortCriteria::ReleaseDate,
            SortCriteria::Popular => SortCriteria::Expiring,
        }
    }

    /// Whether the criteria can be applied locally over search results.
    pub open spec fn spec_search_supported(&self) -> bool {
        self is Price || self is Cut
    }

    /// The toggle used instead of the six-way cycle while in search mode:
    /// `Price` goes to `Cut`, everything else goes to `Price`. The result is
    /// always a search-supported criteria.
    pub open spec fn spec_toggle_search(&self) -> SortCriteria {
        match self {
            SortCriteria::Price => SortCriteria::Cut,
            _ => SortCriteria::Price,
        }
    }

    pub fn toggle_search(&self) -> (r: Self)
        ensures
            r == self.spec_toggle_search(),
            r.spec_search_supported(),
    {
        match self {
            SortCriteria::Price => SortCriteria::Cut,
            _ => SortCriteria::Price,
        }
    }

    /// The token that names the sort order in the remote API's query string.
    pub open spec fn spec_token(&self) -> Seq<char> {
        match self {
            SortCriteria::Price => "price"@,
            SortCriteria::Cut => "cut"@,
            SortCriteria::Hottest => "hot"@,
            SortCriteria::ReleaseDate => "release-date"@,
            SortCriteria::Expiring => "expiry"@,
            SortCriteria::Popular => "rank"@,
        }
    }

    /// The full API sort parameter: the token, prefixed with `-` when
    /// descending.
    pub open spec fn spec_api_param(&self, ascending: bool) -> Seq<char> {
        if ascending {
            self.spec_token()
        } else {
            "-"@ + self.spec_token()
        }
    }

    pub fn api_param(&self, ascending: bool) -> (r: String)
        ensures
            r@ == self.spec_api_param(ascending),
    {
        let base = match self {
            SortCriteria::Price => "price",
            SortCriteria::Cut => "cut",
            SortCriteria::Hottest => "hot",
            SortCriteria::ReleaseDate => "release-date",
            SortCriteria::Expiring => "expiry",
            SortCriteria::Popular => "rank",
        };
        if ascending {
            base.to_owned()
        } else {
            let mut s = String::from_str("-");
            s.append(base);
            s
        }
    }
}

impl Default for SortCriteria {
    /// Sorting defaults to price.
    fn default() -> (r: Self)
        ensures
            r == SortCriteria::Price,
    {
        SortCriteria::Price
    }
}

/// Which way the current criteria orders the list.
#[derive(Debug, Clone, Copy, PartialEq, Eq, Structural)]
pub enum SortDirection {
    Ascending,
    Descending,
}

impl SortDirection {
    /// The opposite direction.
    pub open spec fn spec_toggle(&self) -> SortDirection {
        match self {
            SortDirection::Ascending => SortDirection::Descending,
            SortDirection::Descending => SortDirection::Ascending,
        }
    }

    pub fn toggle(&self) -> (r: Self)
        ensures
            r == self.spec_toggle(),
    {
        match self {
            SortDirection::Ascending => SortDirection::Descending,
            SortDirection::Descending => SortDirection::Ascending,
        }
    }

    /// The arrow glyph shown next to the criteria name.
    pub open spec fn spec_arrow(&self) -> Seq<char> {
        match self {
            SortDirection::Ascending => "↑"@,
            SortDirection::Descending => "↓"@,
        }
    }

    pub fn arrow(&self) -> (r: &'static str)
        ensures
            r@ == self.spec_arrow(),
    {
        match self {
            SortDirection::Ascending => "↑",
            SortDirection::Descending => "↓",
        }
    }
}

impl Default for SortDirection {
    /// Sorting defaults to ascending order.
    fn default() -> (r: Self)
        ensures
            r == SortDirection::Ascending,
    {
        SortDirection::Ascending
    }
}

/// Combined sort criteria and direction.
#[derive(Debug, Clone, Copy, PartialEq, Eq, Structural)]
pub struct SortState {
    pub criteria: SortCriteria,
    pub direction: SortDirection,
}

impl SortState {
    /// The API sort parameter for this state.
    pub open spec fn spec_api_param(&self) -> Seq<char> {
        self.criteria.spec_api_param(self.direction is Ascending)
    }

    pub fn api_param(&self) -> (r: String)
        ensures
            r@ == self.spec_api_param(),
    {
        self.criteria.api_param(self.direction == SortDirection::Ascending)
    }

    /// The label shown in the status line: name, a space, and the arrow.
    pub open spec fn spec_label(&self) -> Seq<char> {
        self.criteria.spec_name() + " "@ + self.direction.spec_arrow()
    }

    pub fn label(&self) -> (r: String)
        ensures
            r@ == self.spec_label(),
    {
        let mut s = self.criteria.name().to_owned();
        s.append(" ");
        s.append(self.direction.arrow());
        s
    }
}

impl Default for SortState {
    /// Price, ascending.
    fn default() -> (r: Self)
        ensures
            r.criteria == SortCriteria::Price,
            r.direction == SortDirection::Ascending,
    {
        SortState { criteria: SortCriteria::Price, direction: SortDirection::Ascending }
    }
}

} // verus!
