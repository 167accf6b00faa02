use ggmod::gamebanana::builder::{FeedFilter, SearchBuilder, SearchFilter, TypeFilter};
use ggmod::gamebanana::search::Search;

const PROPS: &str = "_sName,_sModelName,_idRow,_aSubmitter,_tsDateUpdated,_tsDateAdded,\
_aPreviewMedia,_sText,_sDescription,_aCategory,_aRootCategory,_aGame,_nViewCount,\
_nLikeCount,_nDownloadCount,_bIsNsfw,_aAlternateFileSources";

#[test]
fn default_query_asks_for_featured_skins() {
    let search = SearchBuilder::new().build();
    assert_eq!(
        search.url(),
        format!(
            "https://gamebanana.com/apiv6/Mod/ByGame?_aGameRowIds[]=11534&_csvProperties={}&_nPerpage=30&_aArgs[]=_sbIsNsfw = false&_aArgs[]=_sbWasFeatured = true& _sOrderBy=_tsDateAdded,DESC",
            PROPS
        )
    );
}

#[test]
fn query_by_name_and_page() {
    let search = SearchBuilder::new()
        .of_type(TypeFilter::Sound)
        .with_sort(FeedFilter::Popular)
        .per_page(15)
        .nsfw(true)
        .by_search(SearchFilter::Name { search: "sol", game_id: 11534 })
        .build();
    assert_eq!(
        search.page(3),
        format!(
            "https://gamebanana.com/apiv6/Sound/ByName?_sName=*sol*&_idGameRow=11534&_csvProperties={}&_nPerpage=15&_sOrderBy=_nDownloadCount,DESC&_nPage=3",
            PROPS
        )
    );
}

#[test]
fn query_by_category() {
    let search = SearchBuilder::new()
        .of_type(TypeFilter::WiP)
        .with_sort(FeedFilter::Recent)
        .by_search(SearchFilter::Category { cat_id: 5 })
        .of_category(Some(5))
        .build();
    assert_eq!(
        search.url(),
        format!(
            "https://gamebanana.com/apiv6/Wip/ByCategory?_aCategoryRowIds[]=5&_csvProperties={}&_nPerpage=30&_aArgs[]=_sbIsNsfw = false&_sOrderBy=_tsDateUpdated,DESC&_aCategoryRowIds[]=5",
            PROPS
        )
    );
}

#[test]
fn base_and_page_of_a_search() {
    let search = Search::base("Mod/x");
    assert_eq!(search.url(), "https://gamebanana.com/apiv6/Mod/x");
    assert_eq!(search.page(0), "https://gamebanana.com/apiv6/Mod/x&_nPage=0");
    assert_eq!(search.page(120), "https://gamebanana.com/apiv6/Mod/x&_nPage=120");
}

#[test]
fn variants_in_declared_order() {
    assert_eq!(
        TypeFilter::variants(),
        vec![TypeFilter::Skin, TypeFilter::Sound, TypeFilter::WiP]
    );
    assert_eq!(
        FeedFilter::variants(),
        vec![FeedFilter::Recent, FeedFilter::Popular, FeedFilter::Featured]
    );
}
