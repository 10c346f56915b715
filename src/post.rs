use vstd::prelude::*;

verus! {

/// One article of the feed, with its metadata and its body markup.
pub struct Post {
    pub title: String,
    pub content: String,
    pub url: String,
    pub pub_date: String,
}

/// The mathematical value of a [`Post`]: its four fields as character sequences.
pub struct PostView {
    pub title: Seq<char>,
    pub content: Seq<char>,
    pub url: Seq<char>,
    pub pub_date: Seq<char>,
}

impl View for Post {
    type V = PostView;

    open spec fn view(&self) -> PostView {
        PostView {
            title: self.title@,
            content: self.content@,
            url: self.url@,
            pub_date: self.pub_date@,
        }
    }
}

impl Post {
    /// A copy of the post, field by field.
    pub fn duplicate(&self) -> (r: Post)
        ensures
            r@ == self@,
    {
        Post {
            title: self.title.clone(),
            content: self.content.clone(),
            url: self.url.clone(),
            pub_date: self.pub_date.clone(),
        }
    }
}

} // verus!
