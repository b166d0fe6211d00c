//! The launcher news feed.
use vstd::prelude::*;
use crate::text::opt_text;

verus! {

/// The news feed: a schema version and its entries.
pub struct News {
    pub version: u8,
    pub entries: Vec<NewsReport>,
}

/// One news article.
pub struct NewsReport {
    pub id: String,
    pub title: String,
    pub category: Category,
    pub date: String,
    pub text: String,
    pub play_page_image: NewsImage,
    pub news_page_image: NewsImage,
    pub read_more_link: String,
    pub news_type: Vec<String>,
    pub card_border: Option<bool>,
    pub tag: Option<String>,
}

/// An image attached to an article.
pub struct NewsImage {
    pub title: String,
    pub url: String,
    pub dimensions: Option<ImageDimensions>,
}

#[derive(PartialEq, Eq, Structural, Clone, Copy, Debug)]
pub enum Category {
    MinecraftLegends,
    MinecraftForWindows,
    MinecraftJavaEdition,
    MinecraftDungeons,
}

#[derive(PartialEq, Eq, Structural, Clone, Copy, Debug)]
pub struct ImageDimensions {
    pub width: u16,
    pub height: u16,
}

/// `a` and `b` hold the same image.
pub open spec fn same_image(a: NewsImage, b: NewsImage) -> bool {
    a.title@ == b.title@ && a.url@ == b.url@ && a.dimensions == b.dimensions
}

/// `a` and `b` hold the same article.
pub open spec fn same_report(a: NewsReport, b: NewsReport) -> bool {
    &&& a.id@ == b.id@
    &&& a.title@ == b.title@
    &&& a.category == b.category
    &&& a.date@ == b.date@
    &&& a.text@ == b.text@
    &&& same_image(a.play_page_image, b.play_page_image)
    &&& same_image(a.news_page_image, b.news_page_image)
    &&& a.read_more_link@ == b.read_more_link@
    &&& a.news_type@ == b.news_type@
    &&& a.card_border == b.card_border
    &&& opt_text(a.tag) == opt_text(b.tag)
}

/// Articles among the first `k` entries whose category is `c`, in order.
pub open spec fn in_category(entries: Seq<NewsReport>, c: Category, k: int) -> Seq<NewsReport>
    decreases k,
{
    if k <= 0 {
        Seq::empty()
    } else if entries[k - 1].category == c {
        in_category(entries, c, k - 1).push(entries[k - 1])
    } else {
        in_category(entries, c, k - 1)
    }
}

impl NewsImage {
    /// A copy of this image.
    pub fn duplicate(&self) -> (r: Self)
        ensures
            same_image(r, *self),
    {
        NewsImage { title: self.title.clone(), url: self.url.clone(), dimensions: self.dimensions }
    }
}

impl NewsReport {
    /// A copy of this article.
    pub fn duplicate(&self) -> (r: Self)
        ensures
            same_report(r, *self),
    {
        let mut news_type: Vec<String> = Vec::new();
        let mut i: usize = 0;
        while i < self.news_type.len()
            invariant
                i <= self.news_type@.len(),
                news_type@ == self.news_type@.subrange(0, i as int),
            decreases self.news_type@.len() - i,
        {
            news_type.push(self.news_type[i].clone());
            i += 1;
            assert(news_type@ =~= self.news_type@.subrange(0, i as int));
        }
        assert(news_type@ =~= self.news_type@);
        let tag = match &self.tag {
            Some(t) => Some(t.clone()),
            None => None,
        };
        NewsReport {
            id: self.id.clone(),
            title: self.title.clone(),
            category: self.category,
            date: self.date.clone(),
            text: self.text.clone(),
            play_page_image: self.play_page_image.duplicate(),
            news_page_image: self.news_page_image.duplicate(),
            read_more_link: self.read_more_link.clone(),
            news_type,
            card_border: self.card_border,
            tag,
        }
    }
}

impl News {
    /// Copies of the articles in `category`, in feed order.
    pub fn get_news_by_category(&self, category: Category) -> (r: Vec<NewsReport>)
        ensures
            r@.len() == in_category(self.entries@, category, self.entries@.len() as int).len(),
            forall|i: int|
                0 <= i < r@.len() ==> same_report(
                    #[trigger] r@[i],
                    in_category(self.entries@, category, self.entries@.len() as int)[i],
                ),
    {
        let mut r: Vec<NewsReport> = Vec::new();
        let mut i: usize = 0;
        while i < self.entries.len()
            invariant
                i <= self.entries@.len(),
                r@.len() == in_category(self.entries@, category, i as int).len(),
                forall|j: int|
                    0 <= j < r@.len() ==> same_report(
                        #[trigger] r@[j],
                        in_category(self.entries@, category, i as int)[j],
                    ),
            decreases self.entries@.len() - i,
        {
            if self.entries[i].category == category {
                r.push(self.entries[i].duplicate());
            }
            i += 1;
        }
        r
    }

    /// Java Edition articles.
    pub fn java_edition(&self) -> (r: Vec<NewsReport>)
        ensures
            r@.len() == in_category(self.entries@, Category::MinecraftJavaEdition, self.entries@.len() as int).len(),
            forall|i: int|
                0 <= i < r@.len() ==> same_report(
                    #[trigger] r@[i],
                    in_category(self.entries@, Category::MinecraftJavaEdition, self.entries@.len() as int)[i],
                ),
    {
        self.get_news_by_category(Category::MinecraftJavaEdition)
    }

    /// Minecraft for Windows articles.
    pub fn minecraft_windows(&self) -> (r: Vec<NewsReport>)
        ensures
            r@.len() == in_category(self.entries@, Category::MinecraftForWindows, self.entries@.len() as int).len(),
            forall|i: int|
                0 <= i < r@.len() ==> same_report(
                    #[trigger] r@[i],
                    in_category(self.entries@, Category::MinecraftForWindows, self.entries@.len() as int)[i],
                ),
    {
        self.get_news_by_category(Category::MinecraftForWindows)
    }

    /// Minecraft Dungeons articles.
    pub fn dungeons(&self) -> (r: Vec<NewsReport>)
        ensures
            r@.len() == in_category(self.entries@, Category::MinecraftDungeons, self.entries@.len() as int).len(),
            forall|i: int|
                0 <= i < r@.len() ==> same_report(
                    #[trigger] r@[i],
                    in_category(self.entries@, Category::MinecraftDungeons, self.entries@.len() as int)[i],
                ),
    {
        self.get_news_by_category(Category::MinecraftDungeons)
    }

    /// Minecraft Legends articles.
    pub fn legends(&self) -> (r: Vec<NewsReport>)
        ensures
            r@.len() == in_category(self.entries@, Category::MinecraftLegends, self.entries@.len() as int).len(),
            forall|i: int|
                0 <= i < r@.len() ==> same_report(
                    #[trigger] r@[i],
                    in_category(self.entries@, Category::MinecraftLegends, self.entries@.len() as int)[i],
                ),
    {
        self.get_news_by_category(Category::MinecraftLegends)
    }
}

} // verus!
