use vstd::prelude::*;

verus! {

/// An allowed aspect ratio, as a width/height pair.
#[derive(Clone, Copy, Debug, PartialEq, Eq, Structural)]
pub struct AspectRatio {
    pub width: u32,
    pub height: u32,
}

/// A named preset from the configuration, bundling tags and, optionally,
/// allowed aspect ratios.
#[derive(Debug)]
pub struct Category {
    pub name: String,
    pub tags: Vec<String>,
    pub aspect_ratios: Option<Vec<AspectRatio>>,
}

/// A named reference to a supplier definition file from the configuration;
/// the file itself is loaded only when this supplier is selected.
#[derive(Debug)]
pub struct SupplierRef {
    pub name: String,
    pub file: String,
}

/// The merged search criteria handed to a supplier: ad-hoc tags first, then
/// the selected category's tags, plus the category's allowed aspect ratios.
#[derive(Debug)]
pub struct SearchParameters {
    pub tags: Vec<String>,
    pub aspect_ratios: Vec<AspectRatio>,
}

/// Builds the search parameters for one fetch.
///
/// With a category, the tags are the ad-hoc tags followed by the category's
/// tags (duplicates kept, order preserved) and the aspect ratios are the
/// category's, or empty when it declares none. Without a category, the tags
/// are the ad-hoc tags alone and the aspect ratios are empty.
pub fn compose(category: Option<&Category>, ad_hoc_tags: Vec<String>) -> (params: SearchParameters)
    ensures
        match category {
            Some(c) => params.tags@ == ad_hoc_tags@ + c.tags@ && params.aspect_ratios@ == (
            match c.aspect_ratios {
                Some(r) => r@,
                None => Seq::<AspectRatio>::empty(),
            }),
            None => params.tags@ == ad_hoc_tags@ && params.aspect_ratios@ == Seq::<
                AspectRatio,
            >::empty(),
        },
{
    match category {
        Some(c) => {
            let mut tags = ad_hoc_tags;
            let mut i: usize = 0;
            while i < c.tags.len()
                invariant
                    i <= c.tags.len(),
                    tags@ == ad_hoc_tags@ + c.tags@.subrange(0, i as int),
                decreases c.tags.len() - i,
            {
                tags.push(c.tags[i].clone());
                proof {
                    assert(ad_hoc_tags@ + c.tags@.subrange(0, i as int + 1) =~= (ad_hoc_tags@
                        + c.tags@.subrange(0, i as int)).push(c.tags@[i as int]));
                }
                i = i + 1;
            }
            proof {
                assert(c.tags@.subrange(0, c.tags@.len() as int) =~= c.tags@);
            }
            let aspect_ratios = match &c.aspect_ratios {
                Some(r) => {
                    let mut ratios: Vec<AspectRatio> = Vec::new();
                    let mut j: usize = 0;
                    while j < r.len()
                        invariant
                            j <= r.len(),
                            ratios@ == r@.subrange(0, j as int),
                        decreases r.len() - j,
                    {
                        ratios.push(r[j]);
                        proof {
                            assert(r@.subrange(0, j as int + 1) =~= r@.subrange(
                                0,
                                j as int,
                            ).push(r@[j as int]));
                        }
                        j = j + 1;
                    }
                    proof {
                        assert(r@.subrange(0, r@.len() as int) =~= r@);
                    }
                    ratios
                },
                None => Vec::new(),
            };
            SearchParameters { tags, aspect_ratios }
        },
        None => SearchParameters { tags: ad_hoc_tags, aspect_ratios: Vec::new() },
    }
}

} // verus!
