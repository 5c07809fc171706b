use blog::article::{
    AboutVo, AdminArticleDetailBo, ArticleAttachmentBo, ArticleAttachmentVo, ArticleDetailBo,
    ArticleDetailVo, ArticleListBo, ArticleListItemBo, ArticleListVo, ArticleStatus,
    ArticleViewError, AtomVo, CreateArticleVo, FeedListItemVo, PageLinksVo, PageNavigation, RssVo,
    SearchArticleDto, TemplateRenderData, UnlockArticleVo, UpdateArticleVo,
    VisitorArticleDetailBo,
};
use blog::text::{join_texts, u64_to_decimal};

fn search(q: Option<&str>, size: Option<u64>) -> SearchArticleDto {
    SearchArticleDto { q: q.map(String::from), size }
}

fn item(id: &str, updated_at: i64, need_password: bool) -> ArticleListItemBo {
    ArticleListItemBo {
        article_id: String::from(id),
        title: format!("title {id}"),
        markdown_content: String::from("# md"),
        render_content: String::from("<h1>md</h1>"),
        status: ArticleStatus::Published,
        created_at: 1,
        updated_at,
        published_at: Some(2),
        need_password,
    }
}

fn attachment(id: &str) -> ArticleAttachmentBo {
    ArticleAttachmentBo {
        attachment_id: String::from(id),
        article_id: String::from("art"),
        name: String::from("file"),
        extension: String::from("txt"),
        size: 12,
        mime_type: String::from("text/plain"),
        sha256: String::from("abc"),
        created_at: 7,
    }
}

fn visitor_detail() -> VisitorArticleDetailBo {
    VisitorArticleDetailBo {
        article_id: String::from("art"),
        title: String::from("T"),
        excerpt: String::from("E"),
        markdown_content: String::from("M"),
        render_content: String::from("R"),
        status: ArticleStatus::Published,
        created_at: 1,
        updated_at: 2,
        published_at: Some(3),
        need_password: true,
        attachments: vec![attachment("x"), attachment("y")],
        pv: 10,
        uv: 4,
    }
}

fn admin_detail() -> AdminArticleDetailBo {
    AdminArticleDetailBo {
        article_id: String::from("art"),
        title: String::from("T"),
        excerpt: String::from("E"),
        markdown_content: String::from("M"),
        render_content: String::from("R"),
        password: Some(String::from("pw")),
        status: ArticleStatus::Draft,
        created_at: 1,
        updated_at: 2,
        published_at: None,
        need_password: true,
        attachments: vec![attachment("z")],
        pv: 0,
        uv: 0,
    }
}

#[test]
fn decimal_text() {
    assert_eq!(u64_to_decimal(0), "0");
    assert_eq!(u64_to_decimal(7), "7");
    assert_eq!(u64_to_decimal(10), "10");
    assert_eq!(u64_to_decimal(1234567890), "1234567890");
    assert_eq!(u64_to_decimal(u64::MAX), u64::MAX.to_string());
}

#[test]
fn texts_joined() {
    let parts = vec![String::from("a"), String::from("b"), String::from("c")];
    assert_eq!(join_texts(&parts, "&"), "a&b&c");
    assert_eq!(join_texts(&vec![], "&"), "");
    assert_eq!(join_texts(&vec![String::from("x")], ", "), "x");
}

#[test]
fn link_of_first_page_is_plain() {
    assert_eq!(PageLinksVo::build_link("/articles", 1, &search(None, None)), "/articles");
    assert_eq!(PageLinksVo::build_link("/articles", 3, &search(None, None)), "/articles?page=3");
}

#[test]
fn link_with_all_params() {
    assert_eq!(
        PageLinksVo::build_link("/articles", 2, &search(Some("rust"), Some(20))),
        "/articles?q=rust&size=20&page=2"
    );
    assert_eq!(
        PageLinksVo::build_link("/articles", 1, &search(Some(""), Some(5))),
        "/articles?size=5"
    );
}

#[test]
fn link_encodes_search_text() {
    assert_eq!(
        PageLinksVo::build_link("/articles", 1, &search(Some("a b&c"), None)),
        "/articles?q=a%20b%26c"
    );
    assert_eq!(
        PageLinksVo::build_link("/articles", 1, &search(Some("中"), None)),
        "/articles?q=%E4%B8%AD"
    );
}

#[test]
fn link_with_encoded_query_is_exact() {
    assert_eq!(
        PageLinksVo::link_with_encoded_query("/x", 4, Some("a%20b"), Some(9)),
        "/x?q=a%20b&size=9&page=4"
    );
    assert_eq!(PageLinksVo::link_with_encoded_query("/x", 1, None, None), "/x");
}

#[test]
fn page_links_from_navigation() {
    let nav = PageNavigation { current_page: 2, prev: Some(1), next: Some(3), tail: None, list: vec![1, 2, 3] };
    let links = PageLinksVo::from(&nav, &search(Some("q"), None));
    assert_eq!(links.head, "/articles?q=q");
    assert_eq!(links.prev.as_deref(), Some("/articles?q=q"));
    assert_eq!(links.next.as_deref(), Some("/articles?q=q&page=3"));
    assert_eq!(links.tail, None);
    assert_eq!(links.list.len(), 3);
    assert_eq!(links.list[1].num, 2);
    assert_eq!(links.list[1].link, "/articles?q=q&page=2");
    assert!(links.list[1].is_current);
    assert!(!links.list[0].is_current);
}

#[test]
fn article_list_page() {
    let nav = PageNavigation { current_page: 1, prev: None, next: None, tail: Some(1), list: vec![1] };
    let bo = ArticleListBo { items: vec![item("a", 5, false), item("b", 6, true)] };
    let vo = ArticleListVo::from(bo, nav, search(None, Some(10)));
    assert_eq!(vo.items.len(), 2);
    assert_eq!(vo.items[1].article_id, "b");
    assert!(vo.items[1].need_password);
    assert_eq!(vo.page_links.head, "/articles?size=10");
    assert_eq!(vo.page_links.tail.as_deref(), Some("/articles?size=10"));
    assert_eq!(ArticleListVo::template_name(), "article/list.html");
}

#[test]
fn attachment_url() {
    let vo = ArticleAttachmentVo::from(attachment("att1"));
    assert_eq!(vo.attachment_id, "att1");
    assert_eq!(vo.size, 12);
    assert_eq!(vo.url(), "/articles/art/attachments/att1");
}

#[test]
fn detail_for_visitor_hides_password() {
    let vo = ArticleDetailVo::from(ArticleDetailBo::Visitor(visitor_detail()));
    assert_eq!(vo.password, None);
    assert_eq!(vo.attachments.len(), 2);
    assert_eq!(vo.attachments[1].attachment_id, "y");
    assert_eq!(vo.pv, 10);
    assert_eq!(ArticleDetailVo::template_name(), "article/detail.html");
}

#[test]
fn detail_for_admin_shows_password() {
    let vo = ArticleDetailVo::from(ArticleDetailBo::Admin(admin_detail()));
    assert_eq!(vo.password.as_deref(), Some("pw"));
    assert_eq!(vo.status, ArticleStatus::Draft);
}

#[test]
fn update_page_needs_admin_view() {
    let err = UpdateArticleVo::try_from(ArticleDetailBo::Visitor(visitor_detail()));
    assert_eq!(err.err(), Some(ArticleViewError::NotAdminDetail));
    let ok = UpdateArticleVo::try_from(ArticleDetailBo::Admin(admin_detail())).unwrap();
    assert_eq!(ok.password.as_deref(), Some("pw"));
    assert_eq!(ok.attachments[0].attachment_id, "z");
    assert_eq!(UpdateArticleVo::template_name(), "article/update.html");
}

#[test]
fn about_page() {
    let d = AboutVo::default();
    assert_eq!(d.article_id, None);
    assert!(d.markdown_content.is_empty() && d.render_content.is_empty() && d.attachments.is_empty());
    let vo = AboutVo::from(ArticleDetailBo::Visitor(visitor_detail()));
    assert_eq!(vo.article_id.as_deref(), Some("art"));
    assert_eq!(vo.markdown_content, "M");
    assert_eq!(vo.attachments.len(), 2);
    assert_eq!(AboutVo::template_name(), "about.html");
}

#[test]
fn feed_hides_protected_text() {
    let open = FeedListItemVo::from(item("a", 1, false));
    assert_eq!(open.markdown_content.as_deref(), Some("# md"));
    assert_eq!(open.render_content.as_deref(), Some("<h1>md</h1>"));
    let closed = FeedListItemVo::from(item("b", 1, true));
    assert_eq!(closed.markdown_content, None);
    assert_eq!(closed.render_content, None);
}

#[test]
fn rss_keeps_order() {
    let rss = RssVo::from(ArticleListBo { items: vec![item("a", 1, false), item("b", 2, true)] });
    assert_eq!(rss.items.len(), 2);
    assert_eq!(rss.items[0].article_id, "a");
    assert_eq!(rss.items[1].render_content, None);
    assert_eq!(RssVo::template_name(), "feed/rss.xml");
}

#[test]
fn atom_updated_is_latest() {
    let atom = AtomVo::from(ArticleListBo { items: vec![item("a", 5, false), item("b", 9, false), item("c", 7, true)] });
    assert_eq!(atom.updated_at, 9);
    assert_eq!(atom.items.len(), 3);
    let empty = AtomVo::from(ArticleListBo { items: vec![] });
    assert_eq!(empty.updated_at, 0);
    let negative = AtomVo::from(ArticleListBo { items: vec![item("a", -5, false), item("b", -9, false)] });
    assert_eq!(negative.updated_at, -5);
    assert_eq!(AtomVo::template_name(), "feed/atom.xml");
}

#[test]
fn other_template_names() {
    assert_eq!(CreateArticleVo::template_name(), "article/create.html");
    assert_eq!(UnlockArticleVo::template_name(), "article/unlock.html");
}
