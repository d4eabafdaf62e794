//! An ordered, id-keyed collection of [`Style`]s with lookup by id and the
//! left-to-right cascade `compute`. Unknown ids are skipped silently on
//! lookup; inserting a style with an empty id is an error.

use vstd::prelude::*;

use crate::errors::{CommonResult, LayoutError, LayoutErrorType};
use crate::style::{copy_style, spec_cascade_all, Style, StyleSpec};

verus! {

/// The first style in `styles` whose id is `id`, if any.
pub open spec fn spec_find_style(styles: Seq<Style>, id: Seq<char>) -> Option<Style>
    decreases styles.len(),
{
    if styles.len() == 0 {
        None
    } else if styles[0].id@ == id {
        Some(styles[0])
    } else {
        spec_find_style(styles.drop_first(), id)
    }
}

/// The styles found for each id of `ids`, in id order; missing ids leave
/// no trace in the result.
pub open spec fn spec_find_styles(styles: Seq<Style>, ids: Seq<Seq<char>>) -> Seq<Style>
    decreases ids.len(),
{
    if ids.len() == 0 {
        Seq::<Style>::empty()
    } else {
        let rest = spec_find_styles(styles, ids.drop_last());
        match spec_find_style(styles, ids.last()) {
            Some(s) => rest.push(s),
            None => rest,
        }
    }
}

/// Every style in the sequence carries a non-empty id.
pub open spec fn spec_ids_nonempty(styles: Seq<Style>) -> bool {
    forall|i: int| 0 <= i < styles.len() ==> styles[i].id@.len() > 0
}

/// Index of the first style with an empty id (the sequence length if none).
pub open spec fn spec_first_empty_idx(styles: Seq<Style>) -> int
    decreases styles.len(),
{
    if styles.len() == 0 {
        0
    } else if styles[0].id@.len() == 0 {
        0
    } else {
        1 + spec_first_empty_idx(styles.drop_first())
    }
}

proof fn lemma_first_empty_idx(styles: Seq<Style>, i: int)
    requires
        0 <= i < styles.len(),
        styles[i].id@.len() == 0,
        forall|j: int| 0 <= j < i ==> styles[j].id@.len() > 0,
    ensures
        spec_first_empty_idx(styles) == i,
    decreases i,
{
    if i == 0 {
    } else {
        assert(styles[0].id@.len() > 0);
        assert(styles.drop_first()[i - 1].id@.len() == 0);
        assert forall|j: int| 0 <= j < i - 1 implies styles.drop_first()[j].id@.len() > 0 by {
            assert(styles.drop_first()[j] == styles[j + 1]);
        }
        lemma_first_empty_idx(styles.drop_first(), i - 1);
    }
}

/// What [`Stylesheet::compute`] promises of its result: present exactly when
/// a non-empty list was supplied, and then equal to the left-to-right
/// cascade, with a valid bit-mask cache.
pub open spec fn spec_computed_style_ok(result: Option<Style>, styles: Option<Vec<Style>>) -> bool {
    &&& (result is Some <==> (styles is Some && styles->0@.len() > 0))
    &&& (result is Some ==> result->0@ == spec_cascade_all(
        styles->0@.map_values(|s: Style| s@),
    ) && result->0.cache_ok())
}

/// An ordered collection of named styles.
#[derive(Clone, Debug)]
pub struct Stylesheet {
    pub styles: Vec<Style>,
}

impl Default for Stylesheet {
    fn default() -> (r: Stylesheet)
        ensures
            r.styles@ == Seq::<Style>::empty(),
    {
        Stylesheet { styles: Vec::new() }
    }
}

impl Stylesheet {
    pub fn new() -> (r: Self)
        ensures
            r.styles@ == Seq::<Style>::empty(),
    {
        Stylesheet { styles: Vec::new() }
    }

    /// Appends one style; fails with [`LayoutErrorType::EmptyStyleId`] iff
    /// the style's id is empty, leaving the sheet unchanged in that case.
    pub fn add_style(&mut self, style: Style) -> (r: CommonResult<()>)
        ensures
            style.id@.len() == 0 ==> r is Err && *final(self) == *old(self),
            style.id@.len() > 0 ==> r is Ok && final(self).styles@ == old(self).styles@.push(
                style,
            ),
            r is Err ==> r->Err_0.err_type == LayoutErrorType::EmptyStyleId,
    {
        if style.id.as_str().is_empty() {
            return Err(LayoutError::new(LayoutErrorType::EmptyStyleId));
        }
        self.styles.push(style);
        Ok(())
    }

    /// Appends a list of styles in order, stopping at the first style with an
    /// empty id: the styles before it stay added, the rest are dropped and
    /// [`LayoutErrorType::EmptyStyleId`] is returned.
    pub fn add_styles(&mut self, styles: Vec<Style>) -> (r: CommonResult<()>)
        ensures
            spec_ids_nonempty(styles@) ==> r is Ok && final(self).styles@ == old(self).styles@
                + styles@,
            !spec_ids_nonempty(styles@) ==> r is Err && r->Err_0.err_type
                == LayoutErrorType::EmptyStyleId,
            r is Err ==> ({
                let k = spec_first_empty_idx(styles@);
                &&& 0 <= k < styles@.len()
                &&& styles@[k].id@.len() == 0
                &&& final(self).styles@ == old(self).styles@ + styles@.subrange(0, k)
            }),
    {
        let n = styles.len();
        let mut i: usize = 0;
        while i < n
            invariant
                i <= n,
                n == styles@.len(),
                forall|j: int| 0 <= j < i ==> styles@[j].id@.len() > 0,
                self.styles@ == old(self).styles@ + styles@.subrange(0, i as int),
            decreases n - i,
        {
            let s = copy_style(&styles[i]);
            let res = self.add_style(s);
            match res {
                Ok(_) => {},
                Err(e) => {
                    proof {
                        lemma_first_empty_idx(styles@, i as int);
                    }
                    return Err(e);
                },
            }
            proof {
                assert(styles@.subrange(0, i + 1) =~= styles@.subrange(0, i as int).push(
                    styles@[i as int],
                ));
            }
            i += 1;
        }
        proof {
            assert(styles@.subrange(0, n as int) =~= styles@);
        }
        Ok(())
    }

    /// The first style with the given id, or `None` if the sheet has none.
    pub fn find_style_by_id(&self, id: &str) -> (r: Option<Style>)
        ensures
            r == spec_find_style(self.styles@, id@),
    {
        let key: String = id.to_owned();
        let n = self.styles.len();
        proof {
            assert(self.styles@.skip(0) =~= self.styles@);
        }
        let mut i: usize = 0;
        while i < n
            invariant
                i <= n,
                n == self.styles@.len(),
                key@ == id@,
                spec_find_style(self.styles@.skip(i as int), id@) == spec_find_style(
                    self.styles@,
                    id@,
                ),
                forall|j: int| 0 <= j < i ==> self.styles@[j].id@ != id@,
            decreases n - i,
        {
            proof {
                assert(self.styles@.skip(i as int)[0] == self.styles@[i as int]);
                assert(self.styles@.skip(i as int).drop_first() =~= self.styles@.skip(i + 1));
            }
            if self.styles[i].id == key {
                return Some(copy_style(&self.styles[i]));
            }
            i += 1;
        }
        proof {
            assert(self.styles@.skip(n as int) =~= Seq::<Style>::empty());
        }
        None
    }

    /// Looks up each id in order; unknown ids are skipped. Returns `None`
    /// iff nothing at all was found.
    pub fn find_styles_by_ids(&self, ids: Vec<&str>) -> (r: Option<Vec<Style>>)
        ensures
            ({
                let found = spec_find_styles(self.styles@, ids@.map_values(|s: &str| s@));
                &&& (r is Some <==> found.len() > 0)
                &&& (r is Some ==> r->0@ == found)
            }),
    {
        let ghost mapped = ids@.map_values(|s: &str| s@);
        let mut found: Vec<Style> = Vec::new();
        let n = ids.len();
        let mut i: usize = 0;
        while i < n
            invariant
                i <= n,
                n == ids@.len(),
                mapped == ids@.map_values(|s: &str| s@),
                found@ == spec_find_styles(self.styles@, mapped.take(i as int)),
            decreases n - i,
        {
            proof {
                assert(mapped.take(i + 1).drop_last() =~= mapped.take(i as int));
                assert(mapped.take(i + 1).last() == mapped[i as int]);
            }
            match self.find_style_by_id(ids[i]) {
                Some(style) => {
                    found.push(style);
                },
                None => {},
            }
            i += 1;
        }
        proof {
            assert(mapped.take(n as int) =~= mapped);
        }
        if found.is_empty() {
            None
        } else {
            Some(found)
        }
    }

    /// Folds a list of styles left-to-right into one computed style; `None`
    /// in and an empty list both yield `None`.
    pub fn compute(styles: Option<Vec<Style>>) -> (r: Option<Style>)
        ensures
            (r is Some <==> (styles is Some && styles->0@.len() > 0)),
            r is Some ==> r->0@ == spec_cascade_all(
                styles->0@.map_values(|s: Style| s@),
            ),
            r is Some ==> r->0.cache_ok(),
    {
        match styles {
            Some(styles_vec) => {
                let n = styles_vec.len();
                if n == 0 {
                    return None;
                }
                let ghost mapped = styles_vec@.map_values(|s: Style| s@);
                let mut computed = Style::default();
                let mut i: usize = 0;
                while i < n
                    invariant
                        i <= n,
                        n == styles_vec@.len(),
                        n > 0,
                        mapped == styles_vec@.map_values(|s: Style| s@),
                        computed@ == spec_cascade_all(mapped.take(i as int)),
                        i > 0 ==> computed.cache_ok(),
                    decreases n - i,
                {
                    proof {
                        assert(mapped.take(i + 1).drop_last() =~= mapped.take(i as int));
                        assert(mapped.take(i + 1).last() == mapped[i as int]);
                        assert(mapped[i as int] == styles_vec@[i as int]@);
                    }
                    computed = computed.add(&styles_vec[i]);
                    i += 1;
                }
                proof {
                    assert(mapped.take(n as int) =~= mapped);
                }
                Some(computed)
            },
            None => None,
        }
    }
}

} // verus!
