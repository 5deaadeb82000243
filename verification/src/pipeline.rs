//! The staged pipeline: a list of paths is parsed into items, the items are
//! sorted and rendered, and each render stage says which files it wants
//! written.

use crate::error::debug_text;
use crate::error::BadPattern;
use crate::error::Error;
use crate::error::UnreadablePath;
use crate::keys::ascending;
use crate::keys::descending;
use crate::keys::lemma_reverse_descends;
use crate::keys::sortable;
use crate::parallel::map_each;
use crate::parallel::map_each_ref;
use crate::parallel::sort_each_by_key;
use crate::parallel::try_map_each_ref;
use std::fmt::Debug;
use std::path::PathBuf;
use vstd::prelude::*;

verus! {

/// A list of source paths, in the order in which they were found.
#[derive(Debug)]
pub struct Glob {
    paths: Vec<PathBuf>,
}

impl View for Glob {
    type V = Seq<PathBuf>;

    closed spec fn view(&self) -> Seq<PathBuf> {
        self.paths@
    }
}

/// A list of parsed items, ready to be sorted and rendered.
#[derive(Debug, Clone)]
pub struct Parsed<T: Send + Sync> {
    items: Vec<T>,
}

impl<T: Send + Sync> View for Parsed<T> {
    type V = Seq<T>;

    closed spec fn view(&self) -> Seq<T> {
        self.items@
    }
}

/// A file that a render stage wants written: where it goes and what it
/// holds. Whoever writes it creates the directories that are missing above
/// it and replaces a file that is there.
#[derive(Debug)]
pub struct FileWrite {
    /// Where the file goes.
    pub path: PathBuf,
    /// What the file holds.
    pub contents: String,
}

/// `render_fn` fails on `item`: whatever it returns for it is an `Err`.
pub open spec fn render_always_fails<T, E, F: Fn(&T) -> Result<String, E>>(
    render_fn: F,
    item: T,
) -> bool {
    forall|out: Result<String, E>| render_fn.ensures((&item,), out) ==> out is Err
}

/// The items of a vector, last first.
pub(crate) fn reversed<A>(items: Vec<A>) -> (turned: Vec<A>)
    ensures
        turned@ == items@.reverse(),
{
    let ghost all = items@;
    let mut rest = items;
    let mut turned: Vec<A> = Vec::new();
    while rest.len() > 0
        invariant
            rest@.len() <= all.len(),
            rest@ == all.take(rest@.len() as int),
            turned@.len() == all.len() - rest@.len(),
            forall|k: int| 0 <= k < turned@.len() ==> turned@[k] == all[all.len() - 1 - k],
        decreases rest@.len(),
    {
        let last = rest.pop();
        match last {
            Some(item) => {
                turned.push(item);
            },
            None => {},
        }
    }
    assert(turned@ =~= all.reverse());
    turned
}

/// One write for each pair of a path and a text at the same index.
fn pair_up(paths: Vec<PathBuf>, texts: Vec<String>) -> (writes: Vec<FileWrite>)
    requires
        paths@.len() == texts@.len(),
    ensures
        writes@.len() == paths@.len(),
        forall|i: int|
            0 <= i < paths@.len() ==> (#[trigger] writes@[i]).path == paths@[i] && writes@[i].contents
                == texts@[i],
{
    let ghost all_paths = paths@;
    let ghost all_texts = texts@;
    let mut paths = paths;
    let mut texts = texts;
    let mut back: Vec<FileWrite> = Vec::new();
    while paths.len() > 0
        invariant
            all_paths.len() == all_texts.len(),
            paths@.len() == texts@.len(),
            paths@.len() <= all_paths.len(),
            paths@ == all_paths.take(paths@.len() as int),
            texts@ == all_texts.take(texts@.len() as int),
            back@.len() == all_paths.len() - paths@.len(),
            forall|k: int|
                0 <= k < back@.len() ==> (#[trigger] back@[k]).path == all_paths[all_paths.len() - 1
                    - k] && back@[k].contents == all_texts[all_paths.len() - 1 - k],
        decreases paths@.len(),
    {
        let path = paths.pop();
        let text = texts.pop();
        match (path, text) {
            (Some(path), Some(contents)) => {
                back.push(FileWrite { path, contents });
            },
            _ => {},
        }
    }
    let writes = reversed(back);
    assert forall|i: int| 0 <= i < all_paths.len() implies (#[trigger] writes@[i]).path
        == all_paths[i] && writes@[i].contents == all_texts[i] by {
        assert(writes@[i] == back@[back@.len() - 1 - i]);
    }
    writes
}

/// `f` fails on `path`: whatever it returns for it is an `Err`.
pub open spec fn always_fails<T, E, F: Fn(&PathBuf) -> Result<T, E>>(f: F, path: PathBuf) -> bool {
    forall|out: Result<T, E>| f.ensures((&path,), out) ==> out is Err
}

/// `at` is the place of the first entry of `found` that is an error.
pub open spec fn first_failure(found: Seq<Result<PathBuf, UnreadablePath>>, at: int) -> bool {
    &&& 0 <= at < found.len()
    &&& found[at] is Err
    &&& forall|i: int| 0 <= i < at ==> (#[trigger] found[i]) is Ok
}

/// What matching a pattern comes to, given what the matcher gave.
///
/// A malformed pattern is refused. A directory that could not be read ends
/// the matching with its error, the first in the order of the traversal.
/// Otherwise the list holds every match, in the order of the traversal.
pub open spec fn glob_outcome(
    found: Result<Vec<Result<PathBuf, UnreadablePath>>, BadPattern>,
    result: Result<Glob, Error>,
) -> bool {
    match found {
        Err(e) => result == Err::<Glob, Error>(Error::GlobPatternError(e)),
        Ok(entries) => match result {
            Ok(list) => {
                &&& list@.len() == entries@.len()
                &&& forall|i: int|
                    0 <= i < entries@.len() ==> (#[trigger] entries@[i]) == Ok::<
                        PathBuf,
                        UnreadablePath,
                    >(list@[i])
            },
            Err(Error::GlobError(e)) => exists|at: int|
                #[trigger] first_failure(entries@, at) && entries@[at] == Err::<
                    PathBuf,
                    UnreadablePath,
                >(e),
            Err(_) => false,
        },
    }
}

/// The list of the paths that match a pattern, from what the matcher gave:
/// its refusal of the pattern, or the outcome for each match in turn.
pub fn glob(found: Result<Vec<Result<PathBuf, UnreadablePath>>, BadPattern>) -> (result:
    Result<Glob, Error>)
    ensures
        glob_outcome(found, result),
{
    let entries = match found {
        Ok(entries) => entries,
        Err(e) => { return Err(Error::GlobPatternError(e)); },
    };
    let ghost all = entries@;
    let mut rest = reversed(entries);
    let mut paths: Vec<PathBuf> = Vec::new();
    while rest.len() > 0
        invariant
            found matches Ok(list) && list@ == all,
            rest@.len() + paths@.len() == all.len(),
            forall|k: int| 0 <= k < rest@.len() ==> #[trigger] rest@[k] == all[all.len() - 1 - k],
            forall|i: int|
                0 <= i < paths@.len() ==> (#[trigger] all[i]) == Ok::<PathBuf, UnreadablePath>(
                    paths@[i],
                ),
        decreases rest@.len(),
    {
        let ghost at = paths@.len() as int;
        let ghost before = rest@;
        let next = rest.pop();
        assert(next == Some(before[before.len() - 1]));
        assert(before[before.len() - 1] == all[at]);
        match next {
            Some(Ok(path)) => {
                paths.push(path);
            },
            Some(Err(e)) => {
                assert(first_failure(all, at));
                return Err(Error::GlobError(e));
            },
            None => {},
        }
    }
    Ok(Glob { paths })
}

/// `items` holds one result of `parse_fn` for each path, at the path's place.
pub open spec fn parsed_in_order<T, F: Fn(PathBuf) -> T>(
    paths: Seq<PathBuf>,
    parse_fn: F,
    items: Seq<T>,
) -> bool {
    &&& items.len() == paths.len()
    &&& forall|i: int| 0 <= i < paths.len() ==> parse_fn.ensures((paths[i],), #[trigger] items[i])
}

impl Glob {
    /// The list that holds `paths`, in their order.
    pub fn new(paths: Vec<PathBuf>) -> (glob: Glob)
        ensures
            glob@ == paths@,
    {
        Glob { paths }
    }

    /// The paths, in their order.
    pub fn paths(&self) -> (paths: &Vec<PathBuf>)
        ensures
            paths@ == self@,
    {
        &self.paths
    }

    /// Parses every path with `parse_fn`, in parallel. The items stand in the
    /// order of the paths, whatever the order in which the calls ended.
    pub fn parse<T: Send + Sync, F: Fn(PathBuf) -> T + Send + Sync>(self, parse_fn: F) -> (parsed:
        Parsed<T>)
        requires
            forall|i: int| 0 <= i < self@.len() ==> parse_fn.requires((#[trigger] self@[i],)),
        ensures
            parsed_in_order(self@, parse_fn, parsed@),
    {
        assert(self@ == self.paths@);
        let items = map_each(self.paths, parse_fn);
        Parsed { items }
    }

    /// Parses every path with `parse_fn`, in parallel, and fails as a whole
    /// when one call fails: the items of the calls that succeeded are then
    /// dropped, and the error is the one that one of the failing calls gave.
    pub fn try_parse_cause<
        T: Send + Sync,
        E: Send,
        F: Fn(&PathBuf) -> Result<T, E> + Send + Sync,
    >(self, parse_fn: F) -> (result: Result<Parsed<T>, E>)
        requires
            forall|i: int| 0 <= i < self@.len() ==> parse_fn.requires((&#[trigger] self@[i],)),
        ensures
            match result {
                Ok(parsed) => {
                    &&& parsed@.len() == self@.len()
                    &&& forall|i: int|
                        0 <= i < self@.len() ==> parse_fn.ensures(
                            (&self@[i],),
                            Ok(#[trigger] parsed@[i]),
                        )
                },
                Err(cause) => exists|i: int|
                    0 <= i < self@.len() && parse_fn.ensures((&#[trigger] self@[i],), Err(cause)),
            },
            (exists|i: int| 0 <= i < self@.len() && always_fails(parse_fn, #[trigger] self@[i]))
                ==> result is Err,
    {
        assert(self@ == self.paths@);
        match try_map_each_ref(&self.paths, parse_fn) {
            Ok(items) => {
                proof {
                    assert forall|i: int| 0 <= i < self@.len() implies !always_fails(
                        parse_fn,
                        #[trigger] self@[i],
                    ) by {
                        assert(parse_fn.ensures((&self@[i],), Ok(items@[i])));
                    }
                }
                Ok(Parsed { items })
            },
            Err(cause) => Err(cause),
        }
    }

    /// As `try_parse_cause`, with the failure as an error of the pipeline:
    /// it holds the `Debug` text of the error that the failing call gave.
    pub fn try_parse<
        T: Send + Sync,
        E: Debug + Send + Sync + 'static,
        F: Fn(&PathBuf) -> Result<T, E> + Send + Sync,
    >(self, parse_fn: F) -> (result: Result<Parsed<T>, Error>)
        requires
            forall|i: int| 0 <= i < self@.len() ==> parse_fn.requires((&#[trigger] self@[i],)),
        ensures
            match result {
                Ok(parsed) => {
                    &&& parsed@.len() == self@.len()
                    &&& forall|i: int|
                        0 <= i < self@.len() ==> parse_fn.ensures(
                            (&self@[i],),
                            Ok(#[trigger] parsed@[i]),
                        )
                },
                Err(error) => {
                    &&& error is Parse
                    &&& exists|i: int, cause: E|
                        0 <= i < self@.len() && #[trigger] parse_fn.ensures(
                            (&self@[i],),
                            Err(cause),
                        )
                },
            },
            (exists|i: int| 0 <= i < self@.len() && always_fails(parse_fn, #[trigger] self@[i]))
                ==> result is Err,
    {
        match self.try_parse_cause(parse_fn) {
            Ok(parsed) => Ok(parsed),
            Err(cause) => Err(Error::Parse(debug_text(&cause))),
        }
    }
}

/// Parsing a list and then taking the items out gives as many items as there
/// were paths, each a result of `parse_fn` for the path at its place.
pub proof fn lemma_parse_then_into_vec<T: Send + Sync, F: Fn(PathBuf) -> T>(
    list: Glob,
    parse_fn: F,
    parsed: Parsed<T>,
    items: Vec<T>,
)
    requires
        parsed_in_order(list@, parse_fn, parsed@),
        items == parsed.as_vec(),
    ensures
        items@.len() == list@.len(),
        forall|i: int| 0 <= i < list@.len() ==> parse_fn.ensures((list@[i],), #[trigger] items@[i]),
{
    parsed.lemma_view();
}

impl<T: Send + Sync> Parsed<T> {
    /// The items as the vector that holds them.
    pub closed spec fn as_vec(&self) -> Vec<T> {
        self.items
    }

    /// The view of a pipeline is the view of its vector.
    pub proof fn lemma_view(&self)
        ensures
            self@ == self.as_vec()@,
    {
    }

    /// Sorts the items by the key that `key_fn` gives, smallest first, in
    /// parallel. Items with equal keys may come out in any order.
    pub fn sort_by_key<K: Ord, F: Fn(&T) -> K + Sync>(self, key_fn: F) -> (sorted: Parsed<T>)
        requires
            forall|i: int| 0 <= i < self@.len() ==> key_fn.requires((&#[trigger] self@[i],)),
        ensures
            sorted@.to_multiset() == self@.to_multiset(),
            sorted@.len() == self@.len(),
            sortable(key_fn) ==> ascending(sorted@, key_fn),
    {
        let mut items = self.items;
        sort_each_by_key(&mut items, key_fn);
        proof {
            self@.to_multiset_ensures();
            items@.to_multiset_ensures();
        }
        Parsed { items }
    }

    /// Sorts the items by the key that `key_fn` gives, greatest first, in
    /// parallel. Items with equal keys may come out in any order.
    pub fn sort_by_key_reverse<K: Ord, F: Fn(&T) -> K + Sync>(self, key_fn: F) -> (sorted: Parsed<
        T,
    >)
        requires
            forall|i: int| 0 <= i < self@.len() ==> key_fn.requires((&#[trigger] self@[i],)),
        ensures
            sorted@.to_multiset() == self@.to_multiset(),
            sorted@.len() == self@.len(),
            sortable(key_fn) ==> descending(sorted@, key_fn),
    {
        let mut items = self.items;
        sort_each_by_key(&mut items, key_fn);
        let ghost rising = items@;
        let items = reversed(items);
        proof {
            rising.lemma_reverse_to_multiset();
            self@.to_multiset_ensures();
            items@.to_multiset_ensures();
            if sortable(key_fn) {
                lemma_reverse_descends(rising, key_fn);
            }
        }
        Parsed { items }
    }

    /// Renders every item with `render_fn`, in parallel, then asks
    /// `build_path_fn` where each goes. The pipeline comes back unchanged,
    /// with one write for each item, in the order of the items.
    pub fn render_each<F: Fn(&T) -> String + Send + Sync, G: Fn(&T) -> PathBuf + Send + Sync>(
        self,
        render_fn: F,
        build_path_fn: G,
    ) -> (stage: (Parsed<T>, Vec<FileWrite>))
        requires
            forall|i: int| 0 <= i < self@.len() ==> render_fn.requires((&#[trigger] self@[i],)),
            forall|i: int|
                0 <= i < self@.len() ==> build_path_fn.requires((&#[trigger] self@[i],)),
        ensures
            stage.0 == self,
            stage.1@.len() == self@.len(),
            forall|i: int|
                0 <= i < self@.len() ==> render_fn.ensures(
                    (&self@[i],),
                    (#[trigger] stage.1@[i]).contents,
                ) && build_path_fn.ensures((&self@[i],), stage.1@[i].path),
    {
        assert(self@ == self.items@);
        let texts = map_each_ref(&self.items, render_fn);
        let paths = map_each_ref(&self.items, build_path_fn);
        let writes = pair_up(paths, texts);
        (self, writes)
    }

    /// Renders every item with `render_fn`, in parallel. When one call
    /// fails the stage fails with the error that one of the failing calls
    /// gave, and asks for no write at all. When all succeed it is as
    /// `render_each`.
    pub fn try_render_each_cause<
        E: Send,
        F: Fn(&T) -> Result<String, E> + Send + Sync,
        G: Fn(&T) -> PathBuf + Send + Sync,
    >(self, render_fn: F, build_path_fn: G) -> (result: Result<(Parsed<T>, Vec<FileWrite>), E>)
        requires
            forall|i: int| 0 <= i < self@.len() ==> render_fn.requires((&#[trigger] self@[i],)),
            forall|i: int|
                0 <= i < self@.len() ==> build_path_fn.requires((&#[trigger] self@[i],)),
        ensures
            match result {
                Ok(stage) => {
                    &&& stage.0 == self
                    &&& stage.1@.len() == self@.len()
                    &&& forall|i: int|
                        0 <= i < self@.len() ==> render_fn.ensures(
                            (&self@[i],),
                            Ok((#[trigger] stage.1@[i]).contents),
                        ) && build_path_fn.ensures((&self@[i],), stage.1@[i].path)
                },
                Err(cause) => exists|i: int|
                    0 <= i < self@.len() && render_fn.ensures((&#[trigger] self@[i],), Err(cause)),
            },
            (exists|i: int|
                0 <= i < self@.len() && render_always_fails(render_fn, #[trigger] self@[i]))
                ==> result is Err,
    {
        assert(self@ == self.items@);
        match try_map_each_ref(&self.items, render_fn) {
            Ok(texts) => {
                proof {
                    assert forall|i: int| 0 <= i < self@.len() implies !render_always_fails(
                        render_fn,
                        #[trigger] self@[i],
                    ) by {
                        assert(render_fn.ensures((&self@[i],), Ok(texts@[i])));
                    }
                }
                let paths = map_each_ref(&self.items, build_path_fn);
                let writes = pair_up(paths, texts);
                Ok((self, writes))
            },
            Err(cause) => Err(cause),
        }
    }

    /// As `try_render_each_cause`, with the failure as an error of the
    /// pipeline: it holds the `Debug` text of the error that the failing
    /// call gave.
    pub fn try_render_each<
        E: Debug + Send + Sync + 'static,
        F: Fn(&T) -> Result<String, E> + Send + Sync,
        G: Fn(&T) -> PathBuf + Send + Sync,
    >(self, render_fn: F, build_path_fn: G) -> (result: Result<(Parsed<T>, Vec<FileWrite>), Error>)
        requires
            forall|i: int| 0 <= i < self@.len() ==> render_fn.requires((&#[trigger] self@[i],)),
            forall|i: int|
                0 <= i < self@.len() ==> build_path_fn.requires((&#[trigger] self@[i],)),
        ensures
            match result {
                Ok(stage) => {
                    &&& stage.0 == self
                    &&& stage.1@.len() == self@.len()
                    &&& forall|i: int|
                        0 <= i < self@.len() ==> render_fn.ensures(
                            (&self@[i],),
                            Ok((#[trigger] stage.1@[i]).contents),
                        ) && build_path_fn.ensures((&self@[i],), stage.1@[i].path)
                },
                Err(error) => {
                    &&& error is Render
                    &&& exists|i: int, cause: E|
                        0 <= i < self@.len() && #[trigger] render_fn.ensures(
                            (&self@[i],),
                            Err(cause),
                        )
                },
            },
            (exists|i: int|
                0 <= i < self@.len() && render_always_fails(render_fn, #[trigger] self@[i]))
                ==> result is Err,
    {
        match self.try_render_each_cause(render_fn, build_path_fn) {
            Ok(stage) => Ok(stage),
            Err(cause) => Err(Error::Render(debug_text(&cause))),
        }
    }

    /// Renders all items at once with `render_fn`, called one time on the
    /// items in their order. The pipeline comes back unchanged, with the one
    /// write that puts the text at `dest_path`.
    pub fn render_all<F: Fn(&Vec<T>) -> String>(self, render_fn: F, dest_path: PathBuf) -> (stage: (
        Parsed<T>,
        FileWrite,
    ))
        requires
            render_fn.requires((&self.as_vec(),)),
        ensures
            stage.0 == self,
            stage.1.path == dest_path,
            render_fn.ensures((&self.as_vec(),), stage.1.contents),
    {
        let contents = render_fn(&self.items);
        (self, FileWrite { path: dest_path, contents })
    }

    /// As `render_all`, with a `render_fn` that can fail: its error ends the
    /// stage, and no write is asked for.
    pub fn try_render_all_cause<E, F: Fn(&Vec<T>) -> Result<String, E>>(
        self,
        render_fn: F,
        dest_path: PathBuf,
    ) -> (result: Result<(Parsed<T>, FileWrite), E>)
        requires
            render_fn.requires((&self.as_vec(),)),
        ensures
            match result {
                Ok(stage) => {
                    &&& stage.0 == self
                    &&& stage.1.path == dest_path
                    &&& render_fn.ensures((&self.as_vec(),), Ok(stage.1.contents))
                },
                Err(cause) => render_fn.ensures((&self.as_vec(),), Err(cause)),
            },
    {
        match render_fn(&self.items) {
            Ok(contents) => Ok((self, FileWrite { path: dest_path, contents })),
            Err(cause) => Err(cause),
        }
    }

    /// As `try_render_all_cause`, with the failure as an error of the
    /// pipeline: it holds the `Debug` text of the error that `render_fn`
    /// gave.
    pub fn try_render_all<E: Debug + Send + Sync + 'static, F: Fn(&Vec<T>) -> Result<String, E>>(
        self,
        render_fn: F,
        dest_path: PathBuf,
    ) -> (result: Result<(Parsed<T>, FileWrite), Error>)
        requires
            render_fn.requires((&self.as_vec(),)),
        ensures
            match result {
                Ok(stage) => {
                    &&& stage.0 == self
                    &&& stage.1.path == dest_path
                    &&& render_fn.ensures((&self.as_vec(),), Ok(stage.1.contents))
                },
                Err(error) => {
                    &&& error is Render
                    &&& exists|cause: E| render_fn.ensures((&self.as_vec(),), Err(cause))
                },
            },
    {
        match self.try_render_all_cause(render_fn, dest_path) {
            Ok(stage) => Ok(stage),
            Err(cause) => Err(Error::Render(debug_text(&cause))),
        }
    }

    /// The items, in their order.
    pub fn into_vec(self) -> (items: Vec<T>)
        ensures
            items == self.as_vec(),
            items@ == self@,
    {
        self.items
    }

    /// The first item, or `None` when there is none.
    pub fn first(&self) -> (item: Option<&T>)
        ensures
            self@.len() == 0 ==> item is None,
            self@.len() > 0 ==> item == Some(&self@[0]),
    {
        if self.items.len() > 0 {
            Some(&self.items[0])
        } else {
            None
        }
    }
}

} // verus!
