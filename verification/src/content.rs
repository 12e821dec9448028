//! Renderable content, modeled as a flat sequence of items.
//!
//! The surrounding content-tree representation is a collaborator of this
//! subsystem, not part of it; all the composition done here (labels,
//! separators, captions, gaps) is concatenation of a flat item sequence,
//! plus a single outer block wrapper.

use vstd::prelude::*;

verus! {

/// One atom of renderable content: a run of text, or a weak vertical gap
/// whose magnitude is given in thousandths of an em.
pub enum Item {
    Text(String),
    VGap(u64),
}

/// The mathematical shape of an [`Item`]: text as its character sequence.
pub enum ItemModel {
    Text(Seq<char>),
    VGap(u64),
}

impl View for Item {
    type V = ItemModel;

    open spec fn view(&self) -> ItemModel {
        match self {
            Item::Text(s) => ItemModel::Text(s@),
            Item::VGap(g) => ItemModel::VGap(*g),
        }
    }
}

impl Clone for Item {
    fn clone(&self) -> (r: Item)
        ensures
            r == *self,
    {
        match self {
            Item::Text(s) => Item::Text(s.clone()),
            Item::VGap(g) => Item::VGap(*g),
        }
    }
}

/// A piece of content: what the numbering subsystem composes and emits.
pub struct Content {
    pub items: Vec<Item>,
}

impl View for Content {
    type V = Seq<ItemModel>;

    open spec fn view(&self) -> Seq<ItemModel> {
        self.items@.map_values(|it: Item| it@)
    }
}

impl Content {
    /// Content with nothing in it.
    pub fn empty() -> (r: Content)
        ensures
            r@ == Seq::<ItemModel>::empty(),
    {
        let r = Content { items: Vec::new() };
        proof {
            assert(r@ =~= Seq::<ItemModel>::empty());
        }
        r
    }

    /// Content holding a single run of text.
    pub fn text(s: String) -> (r: Content)
        ensures
            r@ == seq![ItemModel::Text(s@)],
    {
        let mut items: Vec<Item> = Vec::new();
        items.push(Item::Text(s));
        let r = Content { items };
        proof {
            assert(r@ =~= seq![ItemModel::Text(s@)]);
        }
        r
    }

    /// Whether the content holds no items at all.
    pub fn is_empty(&self) -> (r: bool)
        ensures
            r == (self@.len() == 0),
    {
        self.items.len() == 0
    }

    /// Appends one item.
    pub fn push(&mut self, item: Item)
        ensures
            final(self)@ == old(self)@.push(item@),
    {
        let ghost it = item@;
        self.items.push(item);
        proof {
            assert(self@ =~= old(self)@.push(it));
        }
    }

    /// Appends every item of `other`, in order.
    pub fn append(&mut self, other: &Content)
        ensures
            final(self)@ == old(self)@ + other@,
    {
        let n = other.items.len();
        let mut i: usize = 0;
        while i < n
            invariant
                i <= n,
                n == other.items.len(),
                self.items@ == old(self).items@ + other.items@.take(i as int),
            decreases n - i,
        {
            self.items.push(other.items[i].clone());
            i += 1;
            proof {
                assert(self.items@ =~= old(self).items@ + other.items@.take(i as int));
            }
        }
        proof {
            assert(other.items@.take(n as int) =~= other.items@);
            assert(self@ =~= old(self)@ + other@);
        }
    }
}

impl Clone for Content {
    fn clone(&self) -> (r: Content)
        ensures
            r@ == self@,
    {
        let mut r = Content::empty();
        r.append(self);
        r
    }
}

/// The item sequence behind optional content: `None` stays `None`.
pub open spec fn spec_opt_items(o: Option<Content>) -> Option<Seq<ItemModel>> {
    match o {
        Some(c) => Some(c@),
        None => None,
    }
}

/// The outer wrapper a figure renders to: a block that layout must not
/// break across pages, horizontally centered.
pub struct Block {
    pub breakable: bool,
    pub centered: bool,
    pub body: Content,
}

} // verus!
