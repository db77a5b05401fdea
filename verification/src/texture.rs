//! The texture cache: single-decode-per-path image resources under stable
//! handles.
//!
//! A `TextureManager<T>` owns every resource it ever created, keyed by the
//! file path it was loaded from. Decoding and uploading are the host
//! rendering library's work, so `load_texture` takes them in as a loader
//! callback: the callback runs only on the first request for a path, and
//! every later request returns the handle created then, untouched.

use vstd::prelude::*;

use crate::errors::ResourceLoadError;
use crate::pixels::Color;

verus! {

/// A stable reference to one resource of a `TextureManager`: the position at
/// which the resource was created. Within one cache, handles are equal
/// exactly when they refer to the same underlying resource.
#[derive(Clone, Copy, Debug, PartialEq, Eq, Structural)]
pub struct TextureHandle {
    pub index: usize,
}

/// Whether `p` occurs among the cached paths `ps`.
pub open spec fn paths_contain(ps: Seq<Seq<char>>, p: Seq<char>) -> bool {
    exists|i: int| 0 <= i < ps.len() && ps[i] == p
}

/// The position of `p` among the cached paths `ps`: the handle index under
/// which `p`'s resource is stored. Meaningful when `paths_contain(ps, p)`
/// holds; unique when `paths_distinct(ps)` holds.
pub open spec fn path_index(ps: Seq<Seq<char>>, p: Seq<char>) -> int {
    choose|i: int| 0 <= i < ps.len() && ps[i] == p
}

/// No path is cached twice.
pub open spec fn paths_distinct(ps: Seq<Seq<char>>) -> bool {
    forall|i: int, j: int| 0 <= i < j < ps.len() ==> ps[i] != ps[j]
}

/// The loader may be handed any owned copy of the path, together with the
/// requested color key.
pub open spec fn loader_callable<T, F: FnOnce(String, Option<Color>) -> Result<T, String>>(
    loader: F,
    path: Seq<char>,
    color_key: Option<Color>,
) -> bool {
    forall|p: String| p@ == path ==> #[trigger] call_requires(loader, (p, color_key))
}

/// `r` is an outcome the loader allows for this path and color key.
pub open spec fn loader_returned<T, F: FnOnce(String, Option<Color>) -> Result<T, String>>(
    loader: F,
    path: Seq<char>,
    color_key: Option<Color>,
    r: Result<T, String>,
) -> bool {
    exists|p: String| p@ == path && #[trigger] call_ensures(loader, (p, color_key), r)
}

/// With distinct paths, any position holding `p` is the one `path_index`
/// picks.
pub proof fn lemma_path_index_of(ps: Seq<Seq<char>>, p: Seq<char>, i: int)
    requires
        paths_distinct(ps),
        0 <= i < ps.len(),
        ps[i] == p,
    ensures
        paths_contain(ps, p),
        path_index(ps, p) == i,
{
    assert(paths_contain(ps, p));
    let j = path_index(ps, p);
    assert(0 <= j < ps.len() && ps[j] == p);
    if i < j {
        assert(ps[i] != ps[j]);
    } else if j < i {
        assert(ps[j] != ps[i]);
    }
}

/// Law (cache idempotence): storing a new path `p` gives it the next free
/// handle index, keeps every already-cached path under its old index, and
/// leaves the paths distinct. So a later acquisition of `p` finds it cached
/// and yields exactly the handle its first acquisition produced, and
/// acquiring `p` never displaces any other path's handle.
pub proof fn lemma_cache_idempotent(ps: Seq<Seq<char>>, p: Seq<char>)
    requires
        paths_distinct(ps),
        !paths_contain(ps, p),
    ensures
        paths_distinct(ps.push(p)),
        paths_contain(ps.push(p), p),
        path_index(ps.push(p), p) == ps.len(),
        forall|q: Seq<char>|
            #[trigger] paths_contain(ps, q) ==> paths_contain(ps.push(p), q) && path_index(
                ps.push(p),
                q,
            ) == path_index(ps, q),
{
    assert forall|i: int, j: int| 0 <= i < j < ps.push(p).len() implies ps.push(p)[i] != ps.push(
        p,
    )[j] by {
        if j < ps.len() {
            assert(ps[i] != ps[j]);
        } else {
            assert(ps.push(p)[j] == p);
            assert(ps.push(p)[i] == ps[i]);
            assert(ps[i] != p) by {
                if ps[i] == p {
                    assert(paths_contain(ps, p));
                }
            }
        }
    }
    lemma_path_index_of(ps.push(p), p, ps.len() as int);
    assert forall|q: Seq<char>| #[trigger] paths_contain(ps, q) implies paths_contain(
        ps.push(p),
        q,
    ) && path_index(ps.push(p), q) == path_index(ps, q) by {
        let i = path_index(ps, q);
        assert(0 <= i < ps.len() && ps[i] == q);
        lemma_path_index_of(ps, q, i);
        assert(ps.push(p)[i] == q);
        lemma_path_index_of(ps.push(p), q, i);
    }
}

/// Law (cache isolation): two distinct cached paths are stored under
/// distinct handle indices, so they name distinct resources.
pub proof fn lemma_cache_isolation(ps: Seq<Seq<char>>, p1: Seq<char>, p2: Seq<char>)
    requires
        paths_distinct(ps),
        paths_contain(ps, p1),
        paths_contain(ps, p2),
        p1 != p2,
    ensures
        path_index(ps, p1) != path_index(ps, p2),
{
    let i1 = path_index(ps, p1);
    let i2 = path_index(ps, p2);
    assert(0 <= i1 < ps.len() && ps[i1] == p1);
    assert(0 <= i2 < ps.len() && ps[i2] == p2);
}

/// Maps an image file path to the resource decoded from it, creating each
/// resource at most once per path and keeping it for the cache's whole
/// lifetime. There is no eviction and no capacity bound.
pub struct TextureManager<T> {
    paths: Vec<String>,
    resources: Vec<T>,
}

impl<T> TextureManager<T> {
    /// The cached paths, in resource-creation order; the resource loaded
    /// from `self.paths()[i]` is held by the handle with index `i`.
    pub closed spec fn paths(&self) -> Seq<Seq<char>> {
        self.paths@.map_values(|s: String| s@)
    }

    /// The cached resources; `self.resources()[i]` was loaded from
    /// `self.paths()[i]`.
    pub closed spec fn resources(&self) -> Seq<T> {
        self.resources@
    }

    /// Cache validity: paths are pairwise distinct (one resource per path)
    /// and each path has its resource.
    pub open spec fn wf(&self) -> bool {
        &&& paths_distinct(self.paths())
        &&& self.paths().len() == self.resources().len()
    }

    /// Whether a resource for `p` has been cached.
    pub open spec fn spec_contains(&self, p: Seq<char>) -> bool {
        paths_contain(self.paths(), p)
    }

    /// An empty cache.
    pub fn new() -> (m: TextureManager<T>)
        ensures
            m.wf(),
            m.paths() == Seq::<Seq<char>>::empty(),
            m.resources() == Seq::<T>::empty(),
    {
        let m = TextureManager { paths: Vec::new(), resources: Vec::new() };
        proof {
            assert(m.paths() =~= Seq::<Seq<char>>::empty());
            assert(m.resources() =~= Seq::<T>::empty());
        }
        m
    }

    /// The number of cached resources.
    pub fn len(&self) -> (n: usize)
        ensures
            n == self.paths().len(),
    {
        self.paths.len()
    }

    /// The position of `img_path` among the cached paths, if cached.
    fn find(&self, img_path: &str) -> (r: Option<usize>)
        ensures
            r matches Some(i) ==> i < self.paths().len() && self.paths()[i as int] == img_path@,
            r is None ==> !self.spec_contains(img_path@),
    {
        let p: String = img_path.to_owned();
        let n = self.paths.len();
        for i in 0..n
            invariant
                n == self.paths@.len(),
                p@ == img_path@,
                forall|j: int| 0 <= j < i ==> self.paths()[j] != img_path@,
        {
            if self.paths[i] == p {
                return Some(i);
            }
        }
        None
    }

    /// The handle of the resource cached for `img_path`, if one exists.
    pub fn lookup(&self, img_path: &str) -> (r: Option<TextureHandle>)
        requires
            self.wf(),
        ensures
            r is Some <==> self.spec_contains(img_path@),
            r matches Some(h) ==> h.index as int == path_index(self.paths(), img_path@)
                && h.index < self.paths().len(),
    {
        match self.find(img_path) {
            Some(i) => {
                proof {
                    lemma_path_index_of(self.paths(), img_path@, i as int);
                }
                Some(TextureHandle { index: i })
            },
            None => None,
        }
    }

    /// A shared borrow of the resource a handle refers to, or `None` for a
    /// handle this cache never issued.
    pub fn get(&self, handle: TextureHandle) -> (r: Option<&T>)
        ensures
            handle.index < self.resources().len() ==> (r matches Some(t) && *t
                == self.resources()[handle.index as int]),
            handle.index >= self.resources().len() ==> r is None,
    {
        if handle.index < self.resources.len() {
            Some(&self.resources[handle.index])
        } else {
            None
        }
    }

    /// The handle for `img_path`'s resource: the existing one if `img_path`
    /// is already cached (the loader is then never consulted and the cache
    /// is untouched), else the handle of the resource the loader decodes,
    /// stored under `img_path` before returning. A loader failure is
    /// returned as a `ResourceLoadError` carrying the path and the cause,
    /// with the cache left exactly as it was.
    pub fn load_texture<F: FnOnce(String, Option<Color>) -> Result<T, String>>(
        &mut self,
        img_path: &str,
        color_key: Option<Color>,
        loader: F,
    ) -> (res: Result<TextureHandle, ResourceLoadError>)
        requires
            old(self).wf(),
            loader_callable(loader, img_path@, color_key),
        ensures
            final(self).wf(),
            res matches Ok(h) ==> final(self).spec_contains(img_path@) && h.index as int
                == path_index(final(self).paths(), img_path@) && h.index
                < final(self).paths().len(),
            old(self).spec_contains(img_path@) ==> res is Ok && *final(self) == *old(self),
            !old(self).spec_contains(img_path@) && res is Ok ==> final(self).paths() == old(
                self,
            ).paths().push(img_path@) && final(self).resources() == old(self).resources().push(
                final(self).resources().last(),
            ) && (res->Ok_0).index == old(self).paths().len() && loader_returned(
                loader,
                img_path@,
                color_key,
                Ok(final(self).resources().last()),
            ),
            res matches Err(e) ==> *final(self) == *old(self) && !old(self).spec_contains(
                img_path@,
            ) && e.path@ == img_path@ && loader_returned(
                loader,
                img_path@,
                color_key,
                Err(e.cause),
            ),
    {
        match self.find(img_path) {
            Some(i) => {
                proof {
                    lemma_path_index_of(self.paths(), img_path@, i as int);
                }
                Ok(TextureHandle { index: i })
            },
            None => {
                let owned: String = img_path.to_owned();
                match loader(owned, color_key) {
                    Ok(t) => {
                        let idx = self.paths.len();
                        let stored: String = img_path.to_owned();
                        self.paths.push(stored);
                        self.resources.push(t);
                        proof {
                            assert(self.paths() =~= old(self).paths().push(img_path@));
                            lemma_cache_idempotent(old(self).paths(), img_path@);
                            assert(self.resources() =~= old(self).resources().push(
                                self.resources().last(),
                            ));
                        }
                        Ok(TextureHandle { index: idx })
                    },
                    Err(cause) => {
                        let path: String = img_path.to_owned();
                        Err(ResourceLoadError { path, cause })
                    },
                }
            },
        }
    }
}

} // verus!
