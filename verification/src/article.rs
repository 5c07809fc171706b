//! Articles as the service layer hands them over, and the view models that
//! the pages and feeds are rendered from.

use vstd::prelude::*;

use crate::text::{decimal, join_texts, joined_with, u64_to_decimal};

verus! {

/// Publication state of an article.
#[derive(Clone, Copy, Debug, PartialEq, Eq, Structural)]
pub enum ArticleStatus {
    Draft,
    Published,
}

/// An attachment of an article.
#[derive(Clone, Debug)]
pub struct ArticleAttachmentBo {
    pub attachment_id: String,
    pub article_id: String,
    pub name: String,
    pub extension: String,
    pub size: u64,
    pub mime_type: String,
    pub sha256: String,
    pub created_at: i64,
}

/// An article in a list of articles.
#[derive(Clone, Debug)]
pub struct ArticleListItemBo {
    pub article_id: String,
    pub title: String,
    pub markdown_content: String,
    pub render_content: String,
    pub status: ArticleStatus,
    pub created_at: i64,
    pub updated_at: i64,
    pub published_at: Option<i64>,
    pub need_password: bool,
}

/// A list of articles.
#[derive(Clone, Debug)]
pub struct ArticleListBo {
    pub items: Vec<ArticleListItemBo>,
}

/// An article as a visitor sees it.
#[derive(Clone, Debug)]
pub struct VisitorArticleDetailBo {
    pub article_id: String,
    pub title: String,
    pub excerpt: String,
    pub markdown_content: String,
    pub render_content: String,
    pub status: ArticleStatus,
    pub created_at: i64,
    pub updated_at: i64,
    pub published_at: Option<i64>,
    pub need_password: bool,
    pub attachments: Vec<ArticleAttachmentBo>,
    pub pv: u64,
    pub uv: u64,
}

/// An article as the administrator sees it: with its password.
#[derive(Clone, Debug)]
pub struct AdminArticleDetailBo {
    pub article_id: String,
    pub title: String,
    pub excerpt: String,
    pub markdown_content: String,
    pub render_content: String,
    pub password: Option<String>,
    pub status: ArticleStatus,
    pub created_at: i64,
    pub updated_at: i64,
    pub published_at: Option<i64>,
    pub need_password: bool,
    pub attachments: Vec<ArticleAttachmentBo>,
    pub pv: u64,
    pub uv: u64,
}

/// The details of an article, as a visitor or the administrator sees them.
#[derive(Clone, Debug)]
pub enum ArticleDetailBo {
    Visitor(VisitorArticleDetailBo),
    Admin(AdminArticleDetailBo),
}

/// A page that is rendered from a template of its own.
pub trait TemplateRenderData {
    spec fn spec_template_name() -> Seq<char>;

    fn template_name() -> (r: &'static str)
        ensures
            r@ == Self::spec_template_name(),
    ;
}

/// An attachment on a page.
#[derive(Clone, Debug)]
pub struct ArticleAttachmentVo {
    pub attachment_id: String,
    pub article_id: String,
    pub name: String,
    pub extension: String,
    pub size: u64,
    pub mime_type: String,
    pub sha256: String,
    pub created_at: i64,
}

/// The view of an attachment.
pub open spec fn attachment_vo_of(bo: ArticleAttachmentBo) -> ArticleAttachmentVo {
    ArticleAttachmentVo {
        attachment_id: bo.attachment_id,
        article_id: bo.article_id,
        name: bo.name,
        extension: bo.extension,
        size: bo.size,
        mime_type: bo.mime_type,
        sha256: bo.sha256,
        created_at: bo.created_at,
    }
}

/// The download link of an attachment.
pub open spec fn attachment_url(article_id: Seq<char>, attachment_id: Seq<char>) -> Seq<char> {
    "/articles/"@ + article_id + "/attachments/"@ + attachment_id
}

impl ArticleAttachmentVo {
    pub fn from(value: ArticleAttachmentBo) -> (r: Self)
        ensures
            r == attachment_vo_of(value),
            r.attachment_id == value.attachment_id,
            r.article_id == value.article_id,
            r.name == value.name,
            r.extension == value.extension,
            r.size == value.size,
            r.mime_type == value.mime_type,
            r.sha256 == value.sha256,
            r.created_at == value.created_at,
    {
        ArticleAttachmentVo {
            attachment_id: value.attachment_id,
            article_id: value.article_id,
            name: value.name,
            extension: value.extension,
            size: value.size,
            mime_type: value.mime_type,
            sha256: value.sha256,
            created_at: value.created_at,
        }
    }

    /// The link that downloads this attachment.
    pub fn url(&self) -> (r: String)
        ensures
            r@ == attachment_url(self.article_id@, self.attachment_id@),
    {
        let mut s = String::from_str("/articles/");
        s.append(self.article_id.as_str());
        s.append("/attachments/");
        s.append(self.attachment_id.as_str());
        s
    }
}

/// The views of `bos`, in order.
pub fn attachment_vos(bos: Vec<ArticleAttachmentBo>) -> (r: Vec<ArticleAttachmentVo>)
    ensures
        r@ == bos@.map_values(|b: ArticleAttachmentBo| attachment_vo_of(b)),
{
    let ghost orig = bos@;
    let mut rest = bos;
    let mut out: Vec<ArticleAttachmentVo> = Vec::new();
    while rest.len() > 0
        invariant
            orig.len() == out@.len() + rest@.len(),
            rest@ == orig.subrange(out@.len() as int, orig.len() as int),
            out@ == orig.subrange(0, out@.len() as int).map_values(
                |b: ArticleAttachmentBo| attachment_vo_of(b),
            ),
        decreases rest@.len(),
    {
        let ghost k: int = out@.len() as int;
        let b = rest.remove(0);
        out.push(ArticleAttachmentVo::from(b));
        assert(rest@ =~= orig.subrange(k + 1, orig.len() as int));
        assert(out@ =~= orig.subrange(0, k + 1).map_values(
            |b: ArticleAttachmentBo| attachment_vo_of(b),
        ));
    }
    assert(orig.subrange(0, orig.len() as int) =~= orig);
    out
}

/// An article in the list of articles.
#[derive(Clone, Debug)]
pub struct ArticleListItemVo {
    pub article_id: String,
    pub title: String,
    pub status: ArticleStatus,
    pub created_at: i64,
    pub updated_at: i64,
    pub published_at: Option<i64>,
    pub need_password: bool,
}

/// The view of an article in the list of articles.
pub open spec fn list_item_vo_of(bo: ArticleListItemBo) -> ArticleListItemVo {
    ArticleListItemVo {
        article_id: bo.article_id,
        title: bo.title,
        status: bo.status,
        created_at: bo.created_at,
        updated_at: bo.updated_at,
        published_at: bo.published_at,
        need_password: bo.need_password,
    }
}

impl ArticleListItemVo {
    pub fn from(value: ArticleListItemBo) -> (r: Self)
        ensures
            r == list_item_vo_of(value),
            r.article_id == value.article_id,
            r.title == value.title,
            r.status == value.status,
            r.created_at == value.created_at,
            r.updated_at == value.updated_at,
            r.published_at == value.published_at,
            r.need_password == value.need_password,
    {
        ArticleListItemVo {
            article_id: value.article_id,
            title: value.title,
            status: value.status,
            created_at: value.created_at,
            updated_at: value.updated_at,
            published_at: value.published_at,
            need_password: value.need_password,
        }
    }
}

/// The views of `bos` in the list of articles, in order.
pub fn list_item_vos(bos: Vec<ArticleListItemBo>) -> (r: Vec<ArticleListItemVo>)
    ensures
        r@ == bos@.map_values(|b: ArticleListItemBo| list_item_vo_of(b)),
{
    let ghost orig = bos@;
    let mut rest = bos;
    let mut out: Vec<ArticleListItemVo> = Vec::new();
    while rest.len() > 0
        invariant
            orig.len() == out@.len() + rest@.len(),
            rest@ == orig.subrange(out@.len() as int, orig.len() as int),
            out@ == orig.subrange(0, out@.len() as int).map_values(
                |b: ArticleListItemBo| list_item_vo_of(b),
            ),
        decreases rest@.len(),
    {
        let ghost k: int = out@.len() as int;
        let b = rest.remove(0);
        out.push(ArticleListItemVo::from(b));
        assert(rest@ =~= orig.subrange(k + 1, orig.len() as int));
        assert(out@ =~= orig.subrange(0, k + 1).map_values(
            |b: ArticleListItemBo| list_item_vo_of(b),
        ));
    }
    assert(orig.subrange(0, orig.len() as int) =~= orig);
    out
}

/// A character that URL encoding leaves as it is.
pub open spec fn is_unreserved(c: char) -> bool {
    ('0' <= c && c <= '9') || ('A' <= c && c <= 'Z') || ('a' <= c && c <= 'z') || c == '-' || c
        == '.' || c == '_' || c == '~'
}

/// The UTF-8 bytes of `c`.
pub open spec fn utf8_of_char(c: char) -> Seq<u8> {
    let v = c as int;
    if v < 0x80 {
        seq![v as u8]
    } else if v < 0x800 {
        seq![(0xC0 + v / 64) as u8, (0x80 + v % 64) as u8]
    } else if v < 0x10000 {
        seq![(0xE0 + v / 4096) as u8, (0x80 + (v / 64) % 64) as u8, (0x80 + v % 64) as u8]
    } else {
        seq![
            (0xF0 + v / 262144) as u8,
            (0x80 + (v / 4096) % 64) as u8,
            (0x80 + (v / 64) % 64) as u8,
            (0x80 + v % 64) as u8,
        ]
    }
}

/// The UTF-8 bytes of `s`.
pub open spec fn utf8_of(s: Seq<char>) -> Seq<u8>
    decreases s.len(),
{
    if s.len() == 0 {
        Seq::empty()
    } else {
        utf8_of(s.drop_last()) + utf8_of_char(s.last())
    }
}

/// A byte that URL encoding leaves as it is: an ASCII letter or digit, or
/// one of `-`, `.`, `_`, `~`.
pub open spec fn is_unreserved_byte(b: u8) -> bool {
    (0x30 <= b <= 0x39) || (0x41 <= b <= 0x5A) || (0x61 <= b <= 0x7A) || b == 0x2D || b == 0x2E
        || b == 0x5F || b == 0x7E
}

/// The upper-case hexadecimal digit of `d`, below sixteen.
pub open spec fn hex_digit_upper(d: int) -> char {
    if d < 10 {
        (0x30 + d) as char
    } else {
        (0x41 + d - 10) as char
    }
}

/// What URL encoding writes for the byte `b`: the byte itself where it is
/// unreserved, else `%` and its two upper-case hexadecimal digits.
pub open spec fn percent_encoded_byte(b: u8) -> Seq<char> {
    if is_unreserved_byte(b) {
        seq![b as char]
    } else {
        seq!['%', hex_digit_upper((b / 16) as int), hex_digit_upper((b % 16) as int)]
    }
}

/// The URL encoding of the bytes `bytes`.
pub open spec fn percent_encoded(bytes: Seq<u8>) -> Seq<char>
    decreases bytes.len(),
{
    if bytes.len() == 0 {
        Seq::empty()
    } else {
        percent_encoded(bytes.drop_last()) + percent_encoded_byte(bytes.last())
    }
}

/// The URL encoding of the text `s`: of its UTF-8 bytes.
pub open spec fn url_encoded(s: Seq<char>) -> Seq<char> {
    percent_encoded(utf8_of(s))
}

/// `urlencoding::encode`: percent-encodes every byte of the UTF-8 form of
/// `s` except ASCII letters, digits and `-`, `_`, `.`, `~`, each other byte
/// as `%` and two upper-case hexadecimal digits.
#[verifier::external_body]
fn url_encode(s: &str) -> (r: String)
    ensures
        r@ == url_encoded(s@),
{
    urlencoding::encode(s).into_owned()
}

/// The query parameters of a link to a page of the article list: the
/// encoded search text, the page size, and the page where it is not the
/// first.
pub open spec fn page_query_params(encoded_q: Option<Seq<char>>, size: Option<u64>, page: u64) -> Seq<Seq<char>> {
    (match encoded_q {
        Some(q) => seq!["q="@ + q],
        None => Seq::empty(),
    }) + (match size {
        Some(n) => seq!["size="@ + decimal(n as nat)],
        None => Seq::empty(),
    }) + (if page != 1 {
        seq!["page="@ + decimal(page as nat)]
    } else {
        Seq::empty()
    })
}

/// A link to a page of the article list at `base`.
pub open spec fn page_link(base: Seq<char>, encoded_q: Option<Seq<char>>, size: Option<u64>, page: u64) -> Seq<char> {
    let ps = page_query_params(encoded_q, size, page);
    if ps.len() == 0 {
        base
    } else {
        base + "?"@ + joined_with(ps, "&"@)
    }
}

/// The search text as it stands in links: encoded, and left out where empty.
pub open spec fn link_query(q: Option<String>) -> Option<Seq<char>> {
    match q {
        Some(t) => if t@.len() > 0 {
            Some(url_encoded(t@))
        } else {
            None
        },
        None => None,
    }
}

/// The text of `t`, if any.
pub open spec fn optional_text(t: Option<&str>) -> Option<Seq<char>> {
    match t {
        Some(s) => Some(s@),
        None => None,
    }
}

/// The conditions of a search of articles.
#[derive(Clone, Debug)]
pub struct SearchArticleDto {
    /// Text searched for.
    pub q: Option<String>,
    /// Page size.
    pub size: Option<u64>,
}

/// The link to page `page` of the article list under `search`.
pub open spec fn search_link(search: SearchArticleDto, page: u64) -> Seq<char> {
    page_link("/articles"@, link_query(search.q), search.size, page)
}

/// The page navigation of a list of articles.
#[derive(Clone, Debug)]
pub struct PageNavigation {
    /// The page shown.
    pub current_page: u64,
    /// The page before it, if any.
    pub prev: Option<u64>,
    /// The page after it, if any.
    pub next: Option<u64>,
    /// The last page, if any.
    pub tail: Option<u64>,
    /// The page numbers that the navigation bar shows.
    pub list: Vec<u64>,
}

/// A page number in the navigation bar.
#[derive(Clone, Debug)]
pub struct PageNumberLinkVo {
    /// Page number.
    pub num: u64,
    /// Link to the page.
    pub link: String,
    /// Whether it is the page shown.
    pub is_current: bool,
}

/// The links of the navigation bar of the article list.
#[derive(Clone, Debug)]
pub struct PageLinksVo {
    /// First page.
    pub head: String,
    /// Previous page.
    pub prev: Option<String>,
    /// Next page.
    pub next: Option<String>,
    /// Last page.
    pub tail: Option<String>,
    /// Page numbers.
    pub list: Vec<PageNumberLinkVo>,
}

/// The link, if any, to the page `page`, if any.
pub open spec fn optional_link(link: Option<String>, page: Option<u64>, search: SearchArticleDto) -> bool {
    match page {
        Some(p) => link matches Some(l) && l@ == search_link(search, p),
        None => link is None,
    }
}

impl PageLinksVo {
    /// A link to page `page` of the list at `base`, given the search text
    /// already encoded (and `None` where it is left out).
    pub fn link_with_encoded_query(base: &str, page: u64, encoded_q: Option<&str>, size: Option<u64>) -> (r: String)
        ensures
            r@ == page_link(base@, optional_text(encoded_q), size, page),
    {
        let mut params: Vec<String> = Vec::new();
        let ghost e = optional_text(encoded_q);
        match encoded_q {
            Some(q) => {
                let mut p = String::from_str("q=");
                p.append(q);
                params.push(p);
            },
            None => {},
        }
        let ghost after_q = params@.map_values(|s: String| s@);
        assert(after_q =~= match e {
            Some(q) => seq!["q="@ + q],
            None => Seq::<Seq<char>>::empty(),
        });
        match size {
            Some(n) => {
                let mut p = String::from_str("size=");
                p.append(u64_to_decimal(n).as_str());
                params.push(p);
            },
            None => {},
        }
        let ghost after_size = params@.map_values(|s: String| s@);
        assert(after_size =~= after_q + match size {
            Some(n) => seq!["size="@ + decimal(n as nat)],
            None => Seq::<Seq<char>>::empty(),
        });
        if page != 1 {
            let mut p = String::from_str("page=");
            p.append(u64_to_decimal(page).as_str());
            params.push(p);
        }
        assert(params@.map_values(|s: String| s@) =~= page_query_params(e, size, page));
        if params.len() == 0 {
            base.to_owned()
        } else {
            let mut out = base.to_owned();
            out.append("?");
            out.append(join_texts(&params, "&").as_str());
            out
        }
    }

    /// A link to page `page` of the list at `base` under `search`.
    pub fn build_link(base: &str, page: u64, search: &SearchArticleDto) -> (r: String)
        ensures
            r@ == page_link(base@, link_query(search.q), search.size, page),
    {
        match &search.q {
            Some(q) => {
                if q.as_str().unicode_len() > 0 {
                    let encoded = url_encode(q.as_str());
                    Self::link_with_encoded_query(base, page, Some(encoded.as_str()), search.size)
                } else {
                    Self::link_with_encoded_query(base, page, None, search.size)
                }
            },
            None => Self::link_with_encoded_query(base, page, None, search.size),
        }
    }

    fn optional_link(page: Option<u64>, search: &SearchArticleDto) -> (r: Option<String>)
        ensures
            optional_link(r, page, *search),
    {
        match page {
            Some(p) => Some(Self::build_link("/articles", p, search)),
            None => None,
        }
    }

    /// The navigation links of the article list under `search`.
    pub fn from(page_navigation: &PageNavigation, search: &SearchArticleDto) -> (r: Self)
        ensures
            r.head@ == search_link(*search, 1),
            optional_link(r.prev, page_navigation.prev, *search),
            optional_link(r.next, page_navigation.next, *search),
            optional_link(r.tail, page_navigation.tail, *search),
            r.list@.len() == page_navigation.list@.len(),
            forall|i: int|
                0 <= i < r.list@.len() ==> {
                    &&& (#[trigger] r.list@[i]).num == page_navigation.list@[i]
                    &&& r.list@[i].link@ == search_link(*search, page_navigation.list@[i])
                    &&& r.list@[i].is_current == (page_navigation.list@[i]
                        == page_navigation.current_page)
                },
    {
        let mut list: Vec<PageNumberLinkVo> = Vec::new();
        let mut i: usize = 0;
        while i < page_navigation.list.len()
            invariant
                i <= page_navigation.list@.len(),
                list@.len() == i,
                forall|j: int|
                    0 <= j < i ==> {
                        &&& (#[trigger] list@[j]).num == page_navigation.list@[j]
                        &&& list@[j].link@ == search_link(*search, page_navigation.list@[j])
                        &&& list@[j].is_current == (page_navigation.list@[j]
                            == page_navigation.current_page)
                    },
            decreases page_navigation.list.len() - i,
        {
            let page = page_navigation.list[i];
            list.push(
                PageNumberLinkVo {
                    num: page,
                    link: Self::build_link("/articles", page, search),
                    is_current: page == page_navigation.current_page,
                },
            );
            i = i + 1;
        }
        PageLinksVo {
            head: Self::build_link("/articles", 1, search),
            prev: Self::optional_link(page_navigation.prev, search),
            next: Self::optional_link(page_navigation.next, search),
            tail: Self::optional_link(page_navigation.tail, search),
            list,
        }
    }
}

/// The page of the article list.
#[derive(Clone, Debug)]
pub struct ArticleListVo {
    /// Articles on the page.
    pub items: Vec<ArticleListItemVo>,
    /// Links of the navigation bar.
    pub page_links: PageLinksVo,
    /// The navigation bar.
    pub page_navigation: PageNavigation,
    /// The search conditions.
    pub search: SearchArticleDto,
}

impl ArticleListVo {
    /// The page of the article list that shows `bo` under `search`, with the
    /// navigation `page_navigation`.
    pub fn from(bo: ArticleListBo, page_navigation: PageNavigation, search: SearchArticleDto) -> (r: Self)
        ensures
            r.items@ == bo.items@.map_values(|b: ArticleListItemBo| list_item_vo_of(b)),
            r.page_links.head@ == search_link(search, 1),
            optional_link(r.page_links.prev, page_navigation.prev, search),
            optional_link(r.page_links.next, page_navigation.next, search),
            optional_link(r.page_links.tail, page_navigation.tail, search),
            r.page_links.list@.len() == page_navigation.list@.len(),
            forall|i: int|
                0 <= i < r.page_links.list@.len() ==> {
                    &&& (#[trigger] r.page_links.list@[i]).num == page_navigation.list@[i]
                    &&& r.page_links.list@[i].link@ == search_link(
                        search,
                        page_navigation.list@[i],
                    )
                    &&& r.page_links.list@[i].is_current == (page_navigation.list@[i]
                        == page_navigation.current_page)
                },
            r.page_navigation == page_navigation,
            r.search == search,
    {
        let page_links = PageLinksVo::from(&page_navigation, &search);
        ArticleListVo { items: list_item_vos(bo.items), page_links, page_navigation, search }
    }
}


impl TemplateRenderData for ArticleListVo {
    open spec fn spec_template_name() -> Seq<char> {
        "article/list.html"@
    }

    fn template_name() -> (r: &'static str) {
        "article/list.html"
    }
}

/// The page of an article.
#[derive(Clone, Debug)]
pub struct ArticleDetailVo {
    pub article_id: String,
    pub title: String,
    pub excerpt: String,
    pub markdown_content: String,
    pub render_content: String,
    /// The password, shown to the administrator only.
    pub password: Option<String>,
    pub status: ArticleStatus,
    pub created_at: i64,
    pub updated_at: i64,
    pub published_at: Option<i64>,
    pub need_password: bool,
    pub attachments: Vec<ArticleAttachmentVo>,
    /// Page views.
    pub pv: u64,
    /// Unique visitors.
    pub uv: u64,
}

/// The views of the attachments of `bos`.
pub open spec fn attachment_views(bos: Vec<ArticleAttachmentBo>) -> Seq<ArticleAttachmentVo> {
    bos@.map_values(|b: ArticleAttachmentBo| attachment_vo_of(b))
}

impl ArticleDetailVo {
    /// The page of an article; the password is shown only where the
    /// administrator looks at it.
    pub fn from(value: ArticleDetailBo) -> (r: Self)
        ensures
            match value {
                ArticleDetailBo::Visitor(b) => {
                    &&& r.article_id == b.article_id
                    &&& r.title == b.title
                    &&& r.excerpt == b.excerpt
                    &&& r.markdown_content == b.markdown_content
                    &&& r.render_content == b.render_content
                    &&& r.password is None
                    &&& r.status == b.status
                    &&& r.created_at == b.created_at
                    &&& r.updated_at == b.updated_at
                    &&& r.published_at == b.published_at
                    &&& r.need_password == b.need_password
                    &&& r.attachments@ == attachment_views(b.attachments)
                    &&& r.pv == b.pv
                    &&& r.uv == b.uv
                },
                ArticleDetailBo::Admin(b) => {
                    &&& r.article_id == b.article_id
                    &&& r.title == b.title
                    &&& r.excerpt == b.excerpt
                    &&& r.markdown_content == b.markdown_content
                    &&& r.render_content == b.render_content
                    &&& r.password == b.password
                    &&& r.status == b.status
                    &&& r.created_at == b.created_at
                    &&& r.updated_at == b.updated_at
                    &&& r.published_at == b.published_at
                    &&& r.need_password == b.need_password
                    &&& r.attachments@ == attachment_views(b.attachments)
                    &&& r.pv == b.pv
                    &&& r.uv == b.uv
                },
            },
    {
        match value {
            ArticleDetailBo::Visitor(bo) => ArticleDetailVo {
                article_id: bo.article_id,
                title: bo.title,
                excerpt: bo.excerpt,
                markdown_content: bo.markdown_content,
                render_content: bo.render_content,
                password: None,
                status: bo.status,
                created_at: bo.created_at,
                updated_at: bo.updated_at,
                published_at: bo.published_at,
                need_password: bo.need_password,
                attachments: attachment_vos(bo.attachments),
                pv: bo.pv,
                uv: bo.uv,
            },
            ArticleDetailBo::Admin(bo) => ArticleDetailVo {
                article_id: bo.article_id,
                title: bo.title,
                excerpt: bo.excerpt,
                markdown_content: bo.markdown_content,
                render_content: bo.render_content,
                password: bo.password,
                status: bo.status,
                created_at: bo.created_at,
                updated_at: bo.updated_at,
                published_at: bo.published_at,
                need_password: bo.need_password,
                attachments: attachment_vos(bo.attachments),
                pv: bo.pv,
                uv: bo.uv,
            },
        }
    }
}

impl TemplateRenderData for ArticleDetailVo {
    open spec fn spec_template_name() -> Seq<char> {
        "article/detail.html"@
    }

    fn template_name() -> (r: &'static str) {
        "article/detail.html"
    }
}

/// The page that asks for an article's password.
#[derive(Clone, Copy, Debug)]
pub struct UnlockArticleVo<'a> {
    pub article_id: &'a str,
    pub title: &'a str,
}

impl<'a> TemplateRenderData for UnlockArticleVo<'a> {
    open spec fn spec_template_name() -> Seq<char> {
        "article/unlock.html"@
    }

    fn template_name() -> (r: &'static str) {
        "article/unlock.html"
    }
}

/// The page that creates an article.
#[derive(Clone, Copy, Debug, PartialEq, Eq, Structural)]
pub struct CreateArticleVo;

impl TemplateRenderData for CreateArticleVo {
    open spec fn spec_template_name() -> Seq<char> {
        "article/create.html"@
    }

    fn template_name() -> (r: &'static str) {
        "article/create.html"
    }
}

/// Why a page cannot be made from what the service handed over.
#[derive(Clone, Copy, Debug, PartialEq, Eq, Structural)]
pub enum ArticleViewError {
    /// The article was read as a visitor sees it, without what the
    /// administrator's page needs.
    NotAdminDetail,
}

/// The page that updates an article.
#[derive(Clone, Debug)]
pub struct UpdateArticleVo {
    pub article_id: String,
    pub title: String,
    pub excerpt: String,
    pub markdown_content: String,
    pub status: ArticleStatus,
    pub created_at: i64,
    pub updated_at: i64,
    pub published_at: Option<i64>,
    pub password: Option<String>,
    pub attachments: Vec<ArticleAttachmentVo>,
    pub pv: u64,
    pub uv: u64,
}

impl UpdateArticleVo {
    /// The page that updates an article, made only from the administrator's
    /// view of it.
    pub fn try_from(value: ArticleDetailBo) -> (r: Result<Self, ArticleViewError>)
        ensures
            value is Visitor <==> r is Err,
            r matches Err(e) ==> e == ArticleViewError::NotAdminDetail,
            value matches ArticleDetailBo::Admin(b) ==> r matches Ok(v) && {
                &&& v.article_id == b.article_id
                &&& v.title == b.title
                &&& v.excerpt == b.excerpt
                &&& v.markdown_content == b.markdown_content
                &&& v.status == b.status
                &&& v.created_at == b.created_at
                &&& v.updated_at == b.updated_at
                &&& v.published_at == b.published_at
                &&& v.password == b.password
                &&& v.attachments@ == attachment_views(b.attachments)
                &&& v.pv == b.pv
                &&& v.uv == b.uv
            },
    {
        match value {
            ArticleDetailBo::Visitor(_) => Err(ArticleViewError::NotAdminDetail),
            ArticleDetailBo::Admin(bo) => Ok(
                UpdateArticleVo {
                    article_id: bo.article_id,
                    title: bo.title,
                    excerpt: bo.excerpt,
                    markdown_content: bo.markdown_content,
                    status: bo.status,
                    created_at: bo.created_at,
                    updated_at: bo.updated_at,
                    published_at: bo.published_at,
                    password: bo.password,
                    attachments: attachment_vos(bo.attachments),
                    pv: bo.pv,
                    uv: bo.uv,
                },
            ),
        }
    }
}

impl TemplateRenderData for UpdateArticleVo {
    open spec fn spec_template_name() -> Seq<char> {
        "article/update.html"@
    }

    fn template_name() -> (r: &'static str) {
        "article/update.html"
    }
}

/// The about page.
#[derive(Clone, Debug)]
pub struct AboutVo {
    /// The article shown, if any.
    pub article_id: Option<String>,
    pub markdown_content: String,
    pub render_content: String,
    pub attachments: Vec<ArticleAttachmentVo>,
}

impl Default for AboutVo {
    /// The about page without an article.
    fn default() -> (r: Self)
        ensures
            r.article_id is None,
            r.markdown_content@ == Seq::<char>::empty(),
            r.render_content@ == Seq::<char>::empty(),
            r.attachments@.len() == 0,
    {
        AboutVo {
            article_id: None,
            markdown_content: String::new(),
            render_content: String::new(),
            attachments: Vec::new(),
        }
    }
}

impl AboutVo {
    /// The about page that shows an article, as whoever reads it sees it.
    pub fn from(value: ArticleDetailBo) -> (r: Self)
        ensures
            match value {
                ArticleDetailBo::Visitor(b) => {
                    &&& r.article_id == Some(b.article_id)
                    &&& r.markdown_content == b.markdown_content
                    &&& r.render_content == b.render_content
                    &&& r.attachments@ == attachment_views(b.attachments)
                },
                ArticleDetailBo::Admin(b) => {
                    &&& r.article_id == Some(b.article_id)
                    &&& r.markdown_content == b.markdown_content
                    &&& r.render_content == b.render_content
                    &&& r.attachments@ == attachment_views(b.attachments)
                },
            },
    {
        match value {
            ArticleDetailBo::Visitor(bo) => AboutVo {
                article_id: Some(bo.article_id),
                markdown_content: bo.markdown_content,
                render_content: bo.render_content,
                attachments: attachment_vos(bo.attachments),
            },
            ArticleDetailBo::Admin(bo) => AboutVo {
                article_id: Some(bo.article_id),
                markdown_content: bo.markdown_content,
                render_content: bo.render_content,
                attachments: attachment_vos(bo.attachments),
            },
        }
    }
}

impl TemplateRenderData for AboutVo {
    open spec fn spec_template_name() -> Seq<char> {
        "about.html"@
    }

    fn template_name() -> (r: &'static str) {
        "about.html"
    }
}

/// An article in a feed.
#[derive(Clone, Debug)]
pub struct FeedListItemVo {
    pub article_id: String,
    pub title: String,
    /// The text, left out of articles behind a password.
    pub markdown_content: Option<String>,
    /// The rendered text, left out of articles behind a password.
    pub render_content: Option<String>,
    pub status: ArticleStatus,
    pub created_at: i64,
    pub updated_at: i64,
    pub published_at: Option<i64>,
    pub need_password: bool,
}

/// An article in a feed: its text only where no password guards it.
pub open spec fn feed_item_of(bo: ArticleListItemBo) -> FeedListItemVo {
    FeedListItemVo {
        article_id: bo.article_id,
        title: bo.title,
        markdown_content: if bo.need_password {
            None
        } else {
            Some(bo.markdown_content)
        },
        render_content: if bo.need_password {
            None
        } else {
            Some(bo.render_content)
        },
        status: bo.status,
        created_at: bo.created_at,
        updated_at: bo.updated_at,
        published_at: bo.published_at,
        need_password: bo.need_password,
    }
}

impl FeedListItemVo {
    pub fn from(value: ArticleListItemBo) -> (r: Self)
        ensures
            r == feed_item_of(value),
            r.article_id == value.article_id,
            r.title == value.title,
            r.status == value.status,
            r.created_at == value.created_at,
            r.updated_at == value.updated_at,
            r.published_at == value.published_at,
            r.need_password == value.need_password,
            r.markdown_content == (if value.need_password {
                None
            } else {
                Some(value.markdown_content)
            }),
            r.render_content == (if value.need_password {
                None
            } else {
                Some(value.render_content)
            }),
    {
        let need_password = value.need_password;
        FeedListItemVo {
            article_id: value.article_id,
            title: value.title,
            markdown_content: if !need_password {
                Some(value.markdown_content)
            } else {
                None
            },
            render_content: if !need_password {
                Some(value.render_content)
            } else {
                None
            },
            status: value.status,
            created_at: value.created_at,
            updated_at: value.updated_at,
            published_at: value.published_at,
            need_password,
        }
    }
}

/// The feed items of `bos`, in order.
pub fn feed_items(bos: Vec<ArticleListItemBo>) -> (r: Vec<FeedListItemVo>)
    ensures
        r@ == bos@.map_values(|b: ArticleListItemBo| feed_item_of(b)),
{
    let ghost orig = bos@;
    let mut rest = bos;
    let mut out: Vec<FeedListItemVo> = Vec::new();
    while rest.len() > 0
        invariant
            orig.len() == out@.len() + rest@.len(),
            rest@ == orig.subrange(out@.len() as int, orig.len() as int),
            out@ == orig.subrange(0, out@.len() as int).map_values(
                |b: ArticleListItemBo| feed_item_of(b),
            ),
        decreases rest@.len(),
    {
        let ghost k: int = out@.len() as int;
        let b = rest.remove(0);
        out.push(FeedListItemVo::from(b));
        assert(rest@ =~= orig.subrange(k + 1, orig.len() as int));
        assert(out@ =~= orig.subrange(0, k + 1).map_values(
            |b: ArticleListItemBo| feed_item_of(b),
        ));
    }
    assert(orig.subrange(0, orig.len() as int) =~= orig);
    out
}

/// The RSS feed.
#[derive(Clone, Debug)]
pub struct RssVo {
    pub items: Vec<FeedListItemVo>,
}

impl RssVo {
    pub fn from(value: ArticleListBo) -> (r: Self)
        ensures
            r.items@ == value.items@.map_values(|b: ArticleListItemBo| feed_item_of(b)),
    {
        RssVo { items: feed_items(value.items) }
    }
}

impl TemplateRenderData for RssVo {
    open spec fn spec_template_name() -> Seq<char> {
        "feed/rss.xml"@
    }

    fn template_name() -> (r: &'static str) {
        "feed/rss.xml"
    }
}

/// The latest update time among `items`, and 0 where there is none.
pub open spec fn latest_update(items: Seq<ArticleListItemBo>) -> i64
    decreases items.len(),
{
    if items.len() == 0 {
        0
    } else if items.len() == 1 {
        items[0].updated_at
    } else {
        let m = latest_update(items.drop_last());
        if items.last().updated_at > m {
            items.last().updated_at
        } else {
            m
        }
    }
}

/// The Atom feed.
#[derive(Clone, Debug)]
pub struct AtomVo {
    /// The latest update time of the articles in it, or 0.
    pub updated_at: i64,
    pub items: Vec<FeedListItemVo>,
}

impl AtomVo {
    pub fn from(value: ArticleListBo) -> (r: Self)
        ensures
            r.updated_at == latest_update(value.items@),
            r.items@ == value.items@.map_values(|b: ArticleListItemBo| feed_item_of(b)),
    {
        let mut latest: i64 = 0;
        let mut i: usize = 0;
        while i < value.items.len()
            invariant
                i <= value.items@.len(),
                latest == latest_update(value.items@.subrange(0, i as int)),
            decreases value.items.len() - i,
        {
            assert(value.items@.subrange(0, i + 1).drop_last() =~= value.items@.subrange(
                0,
                i as int,
            ));
            let u = value.items[i].updated_at;
            if i == 0 || u > latest {
                latest = u;
            }
            i = i + 1;
        }
        assert(value.items@.subrange(0, value.items@.len() as int) =~= value.items@);
        AtomVo { updated_at: latest, items: feed_items(value.items) }
    }
}

impl TemplateRenderData for AtomVo {
    open spec fn spec_template_name() -> Seq<char> {
        "feed/atom.xml"@
    }

    fn template_name() -> (r: &'static str) {
        "feed/atom.xml"
    }
}

/// The update time of an Atom feed is the latest update time among its
/// articles: no article was updated later, and one was updated then. An
/// empty feed gives 0.
pub proof fn law_atom_updated_is_latest(items: Seq<ArticleListItemBo>)
    ensures
        items.len() == 0 ==> latest_update(items) == 0,
        forall|i: int| 0 <= i < items.len() ==> (#[trigger] items[i]).updated_at <= latest_update(items),
        items.len() > 0 ==> exists|i: int|
            0 <= i < items.len() && (#[trigger] items[i]).updated_at == latest_update(items),
    decreases items.len(),
{
    if items.len() > 1 {
        let prev = items.drop_last();
        law_atom_updated_is_latest(prev);
        assert forall|i: int| 0 <= i < items.len() implies (#[trigger] items[i]).updated_at
            <= latest_update(items) by {
            if i < items.len() - 1 {
                assert(items[i] == prev[i]);
            }
        }
        if items.last().updated_at > latest_update(prev) {
            assert(items[items.len() - 1].updated_at == latest_update(items));
        } else {
            let j = choose|j: int| 0 <= j < prev.len() && (#[trigger] prev[j]).updated_at == latest_update(prev);
            assert(items[j] == prev[j]);
        }
    } else if items.len() == 1 {
        assert(items[0].updated_at == latest_update(items));
    }
}

/// A feed shows the text of an article exactly when no password guards it.
pub proof fn law_feed_hides_protected_text(bo: ArticleListItemBo)
    ensures
        feed_item_of(bo).markdown_content is Some <==> !bo.need_password,
        feed_item_of(bo).render_content is Some <==> !bo.need_password,
{
}

/// A link to the first page carries no page number: without search text or
/// page size it is the bare list address, and for any other page it is the
/// list address with only the page number.
pub proof fn law_first_page_link_is_plain(base: Seq<char>, page: u64)
    ensures
        page_link(base, None, None, 1) == base,
        page != 1 ==> page_link(base, None, None, page) == base + "?"@ + ("page="@ + decimal(
            page as nat,
        )),
{
    assert(page_query_params(None, None, 1) =~= Seq::<Seq<char>>::empty());
    if page != 1 {
        assert(page_query_params(None, None, page) =~= seq!["page="@ + decimal(page as nat)]);
    }
}

/// A feed entry keeps every field of the article it is made from but the
/// two texts: its identifier, title, state, creation, update and
/// publication times and password flag; the texts are the article's own
/// where no password guards it.
pub proof fn law_feed_item_keeps_the_article(bo: ArticleListItemBo)
    ensures
        feed_item_of(bo).article_id == bo.article_id,
        feed_item_of(bo).title == bo.title,
        feed_item_of(bo).status == bo.status,
        feed_item_of(bo).created_at == bo.created_at,
        feed_item_of(bo).updated_at == bo.updated_at,
        feed_item_of(bo).published_at == bo.published_at,
        feed_item_of(bo).need_password == bo.need_password,
        !bo.need_password ==> feed_item_of(bo).markdown_content == Some(bo.markdown_content),
        !bo.need_password ==> feed_item_of(bo).render_content == Some(bo.render_content),
{
}

/// The items of the article list that `items` give, in order.
pub open spec fn list_item_vos_of(items: Seq<ArticleListItemBo>) -> Seq<ArticleListItemVo> {
    items.map_values(|b: ArticleListItemBo| list_item_vo_of(b))
}

/// The views of the attachments `bos`, in order.
pub open spec fn attachment_vos_of(bos: Seq<ArticleAttachmentBo>) -> Seq<ArticleAttachmentVo> {
    bos.map_values(|b: ArticleAttachmentBo| attachment_vo_of(b))
}

/// An item of the article list keeps every field of the article it is made
/// from: identifier, title, publication state, times and password flag;
/// and the list keeps the articles in order, one item each.
pub proof fn law_list_item_keeps_the_article(items: Seq<ArticleListItemBo>)
    ensures
        list_item_vos_of(items).len() == items.len(),
        forall|i: int|
            0 <= i < items.len() ==> {
                let vo = #[trigger] list_item_vos_of(items)[i];
                &&& vo.article_id == items[i].article_id
                &&& vo.title == items[i].title
                &&& vo.status == items[i].status
                &&& vo.created_at == items[i].created_at
                &&& vo.updated_at == items[i].updated_at
                &&& vo.published_at == items[i].published_at
                &&& vo.need_password == items[i].need_password
            },
{
}

/// The view of an attachment keeps every field of the attachment; and the
/// views of a list of attachments keep them in order, one view each.
pub proof fn law_attachment_view_keeps_the_attachment(bos: Seq<ArticleAttachmentBo>)
    ensures
        attachment_vos_of(bos).len() == bos.len(),
        forall|i: int|
            0 <= i < bos.len() ==> {
                let vo = #[trigger] attachment_vos_of(bos)[i];
                &&& vo.attachment_id == bos[i].attachment_id
                &&& vo.article_id == bos[i].article_id
                &&& vo.name == bos[i].name
                &&& vo.extension == bos[i].extension
                &&& vo.size == bos[i].size
                &&& vo.mime_type == bos[i].mime_type
                &&& vo.sha256 == bos[i].sha256
                &&& vo.created_at == bos[i].created_at
            },
{
}

/// The parameters of a list link, each independently of the others: the
/// search text adds `q=` in front, a page size adds `size=n` after the
/// search text, and any page but the first adds `page=` at the end; with
/// none of them there is no parameter. So whenever a page size `n` is
/// chosen, every link carries `size=n`, with or without search text, on
/// any page.
pub proof fn law_page_query_params(encoded_q: Option<Seq<char>>, size: Option<u64>, page: u64)
    ensures
        page_query_params(None, None, 1).len() == 0,
        encoded_q matches Some(q) ==> page_query_params(encoded_q, size, page) == page_query_params(
            None,
            size,
            page,
        ).insert(0, "q="@ + q),
        size matches Some(n) ==> page_query_params(encoded_q, size, page) == page_query_params(
            encoded_q,
            None,
            page,
        ).insert(if encoded_q is Some { 1 } else { 0 }, "size="@ + decimal(n as nat)),
        page != 1 ==> page_query_params(encoded_q, size, page) == page_query_params(
            encoded_q,
            size,
            1,
        ).push("page="@ + decimal(page as nat)),
        size matches Some(n) ==> page_query_params(encoded_q, size, page).contains(
            "size="@ + decimal(n as nat),
        ),
{
    let p = page_query_params(encoded_q, size, page);
    assert(page_query_params(None, None, 1) =~= Seq::<Seq<char>>::empty());
    if let Some(q) = encoded_q {
        assert(p =~= page_query_params(None, size, page).insert(0, "q="@ + q));
    }
    if let Some(n) = size {
        let at: int = if encoded_q is Some { 1 } else { 0 };
        assert(p =~= page_query_params(encoded_q, None, page).insert(at, "size="@ + decimal(n as nat)));
        assert(p[at] == "size="@ + decimal(n as nat));
    }
    if page != 1 {
        assert(p =~= page_query_params(encoded_q, size, 1).push("page="@ + decimal(page as nat)));
    }
}

} // verus!
