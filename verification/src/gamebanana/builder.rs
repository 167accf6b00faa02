use crate::gamebanana::search::{catalog_root, Search};
use crate::text::{decimal, joined, push_decimal, push_joined, texts};
use vstd::prelude::*;
use vstd::std_specs::cmp::PartialEqSpecImpl;
use vstd::string::StringExecFns;

verus! {

/// The game whose mods the catalog is asked for.
pub const GAME_ID: usize = 11534;

/// How many results a page holds unless the caller says otherwise.
pub const DEFAULT_PAGE_SIZE: usize = 30;

/// The kinds of submission that the catalog can be asked for.
#[derive(Clone, Copy, Debug, Eq)]
pub enum TypeFilter {
    Skin,
    Sound,
    WiP,
}

impl PartialEq for TypeFilter {
    fn eq(&self, other: &Self) -> (r: bool) {
        match (self, other) {
            (TypeFilter::Skin, TypeFilter::Skin) => true,
            (TypeFilter::Sound, TypeFilter::Sound) => true,
            (TypeFilter::WiP, TypeFilter::WiP) => true,
            _ => false,
        }
    }
}

impl PartialEqSpecImpl for TypeFilter {
    open spec fn obeys_eq_spec() -> bool {
        true
    }

    open spec fn eq_spec(&self, other: &Self) -> bool {
        *self == *other
    }
}

impl TypeFilter {
    /// Every kind, in declared order.
    pub open spec fn all() -> Seq<TypeFilter> {
        seq![TypeFilter::Skin, TypeFilter::Sound, TypeFilter::WiP]
    }

    /// Every kind, in declared order.
    pub fn variants() -> (v: Vec<TypeFilter>)
        ensures
            v@ == TypeFilter::all(),
    {
        let mut v = Vec::new();
        v.push(TypeFilter::Skin);
        v.push(TypeFilter::Sound);
        v.push(TypeFilter::WiP);
        proof {
            assert(v@ =~= TypeFilter::all());
        }
        v
    }

    /// The path segment by which a query names the kind.
    pub open spec fn segment(self) -> Seq<char> {
        match self {
            TypeFilter::Skin => "Mod/"@,
            TypeFilter::Sound => "Sound/"@,
            TypeFilter::WiP => "Wip/"@,
        }
    }
}

/// The orders in which the catalog can list its results.
#[derive(Clone, Copy, Debug, Eq)]
pub enum FeedFilter {
    Recent,
    Popular,
    Featured,
}

impl PartialEq for FeedFilter {
    fn eq(&self, other: &Self) -> (r: bool) {
        match (self, other) {
            (FeedFilter::Recent, FeedFilter::Recent) => true,
            (FeedFilter::Popular, FeedFilter::Popular) => true,
            (FeedFilter::Featured, FeedFilter::Featured) => true,
            _ => false,
        }
    }
}

impl PartialEqSpecImpl for FeedFilter {
    open spec fn obeys_eq_spec() -> bool {
        true
    }

    open spec fn eq_spec(&self, other: &Self) -> bool {
        *self == *other
    }
}

impl FeedFilter {
    /// Every order, in declared order.
    pub open spec fn all() -> Seq<FeedFilter> {
        seq![FeedFilter::Recent, FeedFilter::Popular, FeedFilter::Featured]
    }

    /// Every order, in declared order.
    pub fn variants() -> (v: Vec<FeedFilter>)
        ensures
            v@ == FeedFilter::all(),
    {
        let mut v = Vec::new();
        v.push(FeedFilter::Recent);
        v.push(FeedFilter::Popular);
        v.push(FeedFilter::Featured);
        proof {
            assert(v@ =~= FeedFilter::all());
        }
        v
    }

    /// The part of a query that asks for the order.
    pub open spec fn segment(self) -> Seq<char> {
        match self {
            FeedFilter::Popular => "&_sOrderBy=_nDownloadCount,DESC"@,
            FeedFilter::Featured => "&_aArgs[]=_sbWasFeatured = true& _sOrderBy=_tsDateAdded,DESC"@,
            FeedFilter::Recent => "&_sOrderBy=_tsDateUpdated,DESC"@,
        }
    }
}

/// By what a query selects: a name, a whole game, or a category.
pub enum SearchFilter<'a> {
    Name { search: &'a str, game_id: usize },
    Game { game_id: usize },
    Category { cat_id: usize },
}

/// What a `SearchFilter` selects by, as plain values.
pub ghost enum SearchFilterView {
    Name { search: Seq<char>, game_id: nat },
    Game { game_id: nat },
    Category { cat_id: nat },
}

impl SearchFilterView {
    /// The part of a query that names the selection.
    pub open spec fn segment(self) -> Seq<char> {
        match self {
            SearchFilterView::Category { cat_id } => "ByCategory?_aCategoryRowIds[]="@ + decimal(
                cat_id,
            ) + "&"@,
            SearchFilterView::Name { search, game_id } => "ByName?_sName=*"@ + search
                + "*&_idGameRow="@ + decimal(game_id) + "&"@,
            SearchFilterView::Game { game_id } => "ByGame?_aGameRowIds[]="@ + decimal(game_id)
                + "&"@,
        }
    }
}

impl<'a> View for SearchFilter<'a> {
    type V = SearchFilterView;

    open spec fn view(&self) -> SearchFilterView {
        match *self {
            SearchFilter::Name { search, game_id } => SearchFilterView::Name {
                search: search@,
                game_id: game_id as nat,
            },
            SearchFilter::Game { game_id } => SearchFilterView::Game { game_id: game_id as nat },
            SearchFilter::Category { cat_id } => SearchFilterView::Category {
                cat_id: cat_id as nat,
            },
        }
    }
}

/// The fields that a search asks the catalog to send for each result.
pub open spec fn search_properties() -> Seq<Seq<char>> {
    seq![
        "_sName"@,
        "_sModelName"@,
        "_idRow"@,
        "_aSubmitter"@,
        "_tsDateUpdated"@,
        "_tsDateAdded"@,
        "_aPreviewMedia"@,
        "_sText"@,
        "_sDescription"@,
        "_aCategory"@,
        "_aRootCategory"@,
        "_aGame"@,
        "_nViewCount"@,
        "_nLikeCount"@,
        "_nDownloadCount"@,
        "_bIsNsfw"@,
        "_aAlternateFileSources"@,
    ]
}

fn search_property_names() -> (v: Vec<&'static str>)
    ensures
        texts(v@) == search_properties(),
{
    let mut v: Vec<&'static str> = Vec::new();
    v.push("_sName");
    v.push("_sModelName");
    v.push("_idRow");
    v.push("_aSubmitter");
    v.push("_tsDateUpdated");
    v.push("_tsDateAdded");
    v.push("_aPreviewMedia");
    v.push("_sText");
    v.push("_sDescription");
    v.push("_aCategory");
    v.push("_aRootCategory");
    v.push("_aGame");
    v.push("_nViewCount");
    v.push("_nLikeCount");
    v.push("_nDownloadCount");
    v.push("_bIsNsfw");
    v.push("_aAlternateFileSources");
    proof {
        assert(texts(v@) =~= search_properties());
    }
    v
}

/// The part of a query that keeps results marked as not safe for work out of it.
pub open spec fn nsfw_segment(nsfw: bool) -> Seq<char> {
    if nsfw {
        Seq::empty()
    } else {
        "&_aArgs[]=_sbIsNsfw = false"@
    }
}

/// The part of a query that narrows it to a category, if one is set.
pub open spec fn category_segment(category: Option<usize>) -> Seq<char> {
    match category {
        Some(id) => "&_aCategoryRowIds[]="@ + decimal(id as nat),
        None => Seq::empty(),
    }
}

/// What a `SearchBuilder` has been told so far, as plain values.
pub ghost struct SearchBuilderView {
    pub mod_type: TypeFilter,
    pub search: SearchFilterView,
    pub feed: FeedFilter,
    pub per_page: nat,
    pub category: Option<usize>,
    pub nsfw: bool,
}

impl SearchBuilderView {
    /// What a new builder asks for: featured skins of the game, thirty to a page, safe
    /// for work, of any category.
    pub open spec fn initial() -> SearchBuilderView {
        SearchBuilderView {
            mod_type: TypeFilter::Skin,
            search: SearchFilterView::Game { game_id: GAME_ID as nat },
            feed: FeedFilter::Featured,
            per_page: DEFAULT_PAGE_SIZE as nat,
            category: None,
            nsfw: false,
        }
    }

    /// What follows the catalog's root in the address of the query once the page size,
    /// the order and the selection are set to the given ones.
    pub open spec fn query_with(
        self,
        per_page: nat,
        feed: FeedFilter,
        search: SearchFilterView,
    ) -> Seq<char> {
        (SearchBuilderView { per_page, feed, search, ..self }).query()
    }

    /// What follows the catalog's root in the address of the query.
    pub open spec fn query(self) -> Seq<char> {
        self.mod_type.segment() + self.search.segment() + "_csvProperties="@ + joined(
            search_properties(),
            ","@,
        ) + "&_nPerpage="@ + decimal(self.per_page) + nsfw_segment(self.nsfw)
            + self.feed.segment() + category_segment(self.category)
    }
}

/// Collects what a query of the catalog asks for, then builds the query.
pub struct SearchBuilder<'a> {
    mod_type: TypeFilter,
    search: SearchFilter<'a>,
    feed: FeedFilter,
    per_page: usize,
    category: Option<usize>,
    nsfw: bool,
}

impl<'a> View for SearchBuilder<'a> {
    type V = SearchBuilderView;

    closed spec fn view(&self) -> SearchBuilderView {
        SearchBuilderView {
            mod_type: self.mod_type,
            search: self.search@,
            feed: self.feed,
            per_page: self.per_page as nat,
            category: self.category,
            nsfw: self.nsfw,
        }
    }
}

impl<'a> SearchBuilder<'a> {
    /// A builder for featured skins of the game, thirty to a page, safe for work.
    pub fn new() -> (r: SearchBuilder<'a>)
        ensures
            r@ == SearchBuilderView::initial(),
    {
        SearchBuilder {
            mod_type: TypeFilter::Skin,
            search: SearchFilter::Game { game_id: GAME_ID },
            feed: FeedFilter::Featured,
            per_page: DEFAULT_PAGE_SIZE,
            category: None,
            nsfw: false,
        }
    }

    /// Asks for submissions of kind `mod_type`.
    pub fn of_type(self, mod_type: TypeFilter) -> (r: Self)
        ensures
            r@ == (SearchBuilderView { mod_type, ..self@ }),
    {
        let mut this = self;
        this.mod_type = mod_type;
        this
    }

    /// Narrows the query to the category `cat_id`, or lifts that with `None`.
    pub fn of_category(self, cat_id: Option<usize>) -> (r: Self)
        ensures
            r@ == (SearchBuilderView { category: cat_id, ..self@ }),
    {
        let mut this = self;
        this.category = cat_id;
        this
    }

    /// Selects by `search`.
    pub fn by_search(self, search: SearchFilter<'a>) -> (r: Self)
        ensures
            r@ == (SearchBuilderView { search: search@, ..self@ }),
    {
        let mut this = self;
        this.search = search;
        this
    }

    /// Lets results marked as not safe for work in, or keeps them out.
    pub fn nsfw(self, nsfw: bool) -> (r: Self)
        ensures
            r@ == (SearchBuilderView { nsfw, ..self@ }),
    {
        let mut this = self;
        this.nsfw = nsfw;
        this
    }

    /// Lists the results in the order `sort`.
    pub fn with_sort(self, sort: FeedFilter) -> (r: Self)
        ensures
            r@ == (SearchBuilderView { feed: sort, ..self@ }),
    {
        let mut this = self;
        this.feed = sort;
        this
    }

    /// Puts `size` results on a page.
    pub fn per_page(self, size: usize) -> (r: Self)
        ensures
            r@ == (SearchBuilderView { per_page: size as nat, ..self@ }),
    {
        let mut this = self;
        this.per_page = size;
        this
    }

    /// The query that asks the catalog for what the builder was told.
    pub fn build(self) -> (r: Search)
        ensures
            r@ == catalog_root() + self@.query(),
    {
        let mut part = String::new();
        match self.mod_type {
            TypeFilter::Skin => part.append("Mod/"),
            TypeFilter::Sound => part.append("Sound/"),
            TypeFilter::WiP => part.append("Wip/"),
        }
        match self.search {
            SearchFilter::Category { cat_id } => {
                part.append("ByCategory?_aCategoryRowIds[]=");
                push_decimal(&mut part, cat_id);
                part.append("&");
            },
            SearchFilter::Name { search, game_id } => {
                part.append("ByName?_sName=*");
                part.append(search);
                part.append("*&_idGameRow=");
                push_decimal(&mut part, game_id);
                part.append("&");
            },
            SearchFilter::Game { game_id } => {
                part.append("ByGame?_aGameRowIds[]=");
                push_decimal(&mut part, game_id);
                part.append("&");
            },
        }
        assert(part@ =~= self@.mod_type.segment() + self@.search.segment());
        part.append("_csvProperties=");
        let names = search_property_names();
        push_joined(&mut part, &names, ",");
        part.append("&_nPerpage=");
        push_decimal(&mut part, self.per_page);
        if !self.nsfw {
            part.append("&_aArgs[]=_sbIsNsfw = false");
        }
        match self.feed {
            FeedFilter::Popular => part.append("&_sOrderBy=_nDownloadCount,DESC"),
            FeedFilter::Featured => part.append(
                "&_aArgs[]=_sbWasFeatured = true& _sOrderBy=_tsDateAdded,DESC",
            ),
            FeedFilter::Recent => part.append("&_sOrderBy=_tsDateUpdated,DESC"),
        }
        if let Some(id) = self.category {
            part.append("&_aCategoryRowIds[]=");
            push_decimal(&mut part, id);
        }
        assert(part@ =~= self@.query());
        Search::base(part.as_str())
    }
}

impl<'a> Default for SearchBuilder<'a> {
    fn default() -> (r: Self)
        ensures
            r@ == SearchBuilderView::initial(),
    {
        SearchBuilder::new()
    }
}

} // verus!
