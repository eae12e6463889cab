use vstd::prelude::*;

verus! {

/// The last segment of a slash-delimited name: what follows its last `/`,
/// or the whole name when it holds none.
pub open spec fn last_segment(name: Seq<char>) -> Seq<char>
    decreases name.len(),
{
    if name.len() == 0 {
        name
    } else if name.last() == '/' {
        Seq::empty()
    } else {
        last_segment(name.drop_last()).push(name.last())
    }
}

proof fn last_segment_without_slash(name: Seq<char>)
    requires
        !name.contains('/'),
    ensures
        last_segment(name) == name,
    decreases name.len(),
{
    if name.len() > 0 {
        let init = name.drop_last();
        assert(!init.contains('/')) by {
            if init.contains('/') {
                let i = choose|i: int| 0 <= i < init.len() && init[i] == '/';
                assert(name[i] == '/');
            }
        }
        assert(name[name.len() - 1] != '/');
        last_segment_without_slash(init);
        assert(init.push(name.last()) =~= name);
    }
}

proof fn last_segment_after_slash(head: Seq<char>, tail: Seq<char>)
    requires
        !tail.contains('/'),
    ensures
        last_segment(head + seq!['/'] + tail) == tail,
    decreases tail.len(),
{
    let name = head + seq!['/'] + tail;
    if tail.len() == 0 {
        assert(name.last() == '/');
    } else {
        let init = tail.drop_last();
        assert(!init.contains('/')) by {
            if init.contains('/') {
                let i = choose|i: int| 0 <= i < init.len() && init[i] == '/';
                assert(tail[i] == '/');
            }
        }
        assert(tail[tail.len() - 1] != '/');
        last_segment_after_slash(head, init);
        assert(name.drop_last() =~= head + seq!['/'] + init);
        assert(name.last() == tail.last());
        assert(init.push(tail.last()) =~= tail);
    }
}

/// Relies on str::rsplit_once: it splits a string at the last occurrence of
/// the delimiter into what comes before and what comes after it, and gives
/// `None` when the delimiter does not occur.
#[verifier::external_body]
fn split_at_last_slash(s: &str) -> (r: Option<(&str, &str)>)
    ensures
        r is None ==> !s@.contains('/'),
        r matches Some(parts) ==> s@ == parts.0@ + seq!['/'] + parts.1@ && !parts.1@.contains(
            '/',
        ),
{
    s.rsplit_once('/')
}

/// A tracked clone of a remote repository.
#[derive(Debug)]
pub struct Repo {
    name: String,
    path: String,
}

impl Repo {
    /// The canonical, slash-delimited name of the repository.
    pub closed spec fn name_view(&self) -> Seq<char> {
        self.name@
    }

    /// The local path of the clone.
    pub closed spec fn path_view(&self) -> Seq<char> {
        self.path@
    }

    pub fn new(name: &str, path: &str) -> (r: Repo)
        ensures
            r.name_view() == name@,
            r.path_view() == path@,
    {
        Repo { name: name.to_owned(), path: path.to_owned() }
    }

    /// The short name of the repository: the last segment of its canonical name.
    pub fn get_name(&self) -> (r: &str)
        ensures
            r@ == last_segment(self.name_view()),
    {
        match split_at_last_slash(self.name.as_str()) {
            Some((head, tail)) => {
                proof {
                    last_segment_after_slash(head@, tail@);
                }
                tail
            },
            None => {
                proof {
                    last_segment_without_slash(self.name@);
                }
                self.name.as_str()
            },
        }
    }

    /// The canonical name of the repository.
    pub fn get_full_name(&self) -> (r: &str)
        ensures
            r@ == self.name_view(),
    {
        self.name.as_str()
    }

    pub fn get_path(&self) -> (r: &str)
        ensures
            r@ == self.path_view(),
    {
        self.path.as_str()
    }
}

/// A disposable workspace labelled by the period it was created in.
#[derive(Debug)]
pub struct Scratchpad {
    name: String,
    path: String,
}

impl Scratchpad {
    /// The label of the scratchpad, such as a year and week.
    pub closed spec fn name_view(&self) -> Seq<char> {
        self.name@
    }

    /// The local path of the scratchpad.
    pub closed spec fn path_view(&self) -> Seq<char> {
        self.path@
    }

    pub fn new(name: &str, path: &str) -> (r: Scratchpad)
        ensures
            r.name_view() == name@,
            r.path_view() == path@,
    {
        Scratchpad { name: name.to_owned(), path: path.to_owned() }
    }

    pub fn get_name(&self) -> (r: &str)
        ensures
            r@ == self.name_view(),
    {
        self.name.as_str()
    }

    pub fn get_path(&self) -> (r: &str)
        ensures
            r@ == self.path_view(),
    {
        self.path.as_str()
    }
}

/// The workspace a task operates on.
#[derive(Debug)]
pub enum Target {
    Repo(Repo),
    Scratchpad(Scratchpad),
}

impl Target {
    /// The short name of the target.
    pub open spec fn name_view(&self) -> Seq<char> {
        match self {
            Target::Repo(r) => last_segment(r.name_view()),
            Target::Scratchpad(s) => s.name_view(),
        }
    }

    pub open spec fn path_view(&self) -> Seq<char> {
        match self {
            Target::Repo(r) => r.path_view(),
            Target::Scratchpad(s) => s.path_view(),
        }
    }

    pub fn get_name(&self) -> (r: &str)
        ensures
            r@ == self.name_view(),
    {
        match self {
            Target::Repo(r) => r.get_name(),
            Target::Scratchpad(s) => s.get_name(),
        }
    }

    pub fn get_path(&self) -> (r: &str)
        ensures
            r@ == self.path_view(),
    {
        match self {
            Target::Repo(r) => r.get_path(),
            Target::Scratchpad(s) => s.get_path(),
        }
    }
}

} // verus!
