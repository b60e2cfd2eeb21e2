//! Mount descriptions and their wire encoding.
//!
//! A mount is one of three kinds: a bind mount of an existing tree, a
//! fresh temporary file system, or a normal mount of a source image.  Each
//! kind marshals to its own wire shape; bind mounts marshal under one of
//! two different wire keys depending on writability.
//!
//! Mount sources and destinations are escaped with a leading backslash
//! before backslash, colon and space; this scheme is distinct from the
//! object-path escaping of unit names and must not be conflated with it.

use crate::text::contains_char;
use crate::text::str_eq;
use vstd::prelude::*;

verus! {

#[derive(Debug, Clone)]
enum Priv {
    Bind { src: String, rw: bool, ignore_nonexist: bool, recursive: bool },
    Tmpfs { rw: bool, opts: Vec<String> },
    Normal { src: String, rw: bool, ignore_nonexist: bool, opts: Vec<String> },
}

/// The description of a mount.
#[derive(Debug, Clone)]
pub struct Mount(Priv);

/// The mathematical shape of a [`Mount`].
pub enum MountView {
    Bind { src: Seq<char>, rw: bool, ignore_nonexist: bool, recursive: bool },
    Tmpfs { rw: bool, opts: Seq<Seq<char>> },
    Normal { src: Seq<char>, rw: bool, ignore_nonexist: bool, opts: Seq<Seq<char>> },
}

impl View for Mount {
    type V = MountView;

    closed spec fn view(&self) -> MountView {
        match &self.0 {
            Priv::Bind { src, rw, ignore_nonexist, recursive } => MountView::Bind {
                src: src.deep_view(),
                rw: *rw,
                ignore_nonexist: *ignore_nonexist,
                recursive: *recursive,
            },
            Priv::Tmpfs { rw, opts } => MountView::Tmpfs { rw: *rw, opts: opts.deep_view() },
            Priv::Normal { src, rw, ignore_nonexist, opts } => MountView::Normal {
                src: src.deep_view(),
                rw: *rw,
                ignore_nonexist: *ignore_nonexist,
                opts: opts.deep_view(),
            },
        }
    }
}

impl DeepView for Mount {
    type V = MountView;

    open spec fn deep_view(&self) -> MountView {
        self.view()
    }
}

/// Whether a mount option may be appended: it must not contain a comma,
/// and must not be empty, `ro` or `rw`, writability being controlled
/// through [`Mount::writable`] alone.
pub open spec fn opt_allowed(o: Seq<char>) -> bool {
    &&& !o.contains(',')
    &&& o != ""@
    &&& o != "ro"@
    &&& o != "rw"@
}

impl Mount {
    /// Create a new bind mount, read-only, non-recursive.
    pub fn bind(src: &str) -> (r: Self)
        ensures
            r@ == (MountView::Bind {
                src: src@,
                rw: false,
                ignore_nonexist: false,
                recursive: false,
            }),
    {
        Self(
            Priv::Bind {
                src: src.to_owned(),
                rw: false,
                ignore_nonexist: false,
                recursive: false,
            },
        )
    }

    /// Create a tmpfs mount, read-only, with no options.
    pub fn tmpfs() -> (r: Self)
        ensures
            r@ == (MountView::Tmpfs { rw: false, opts: Seq::empty() }),
    {
        let opts: Vec<String> = Vec::new();
        proof {
            assert(opts.deep_view() =~= Seq::<Seq<char>>::empty());
        }
        Self(Priv::Tmpfs { rw: false, opts })
    }

    /// Create a normal mount of a source image, read-only, with no
    /// options.
    pub fn normal(src: &str) -> (r: Self)
        ensures
            r@ == (MountView::Normal {
                src: src@,
                rw: false,
                ignore_nonexist: false,
                opts: Seq::empty(),
            }),
    {
        let opts: Vec<String> = Vec::new();
        proof {
            assert(opts.deep_view() =~= Seq::<Seq<char>>::empty());
        }
        Self(Priv::Normal { src: src.to_owned(), rw: false, ignore_nonexist: false, opts })
    }

    /// Make the mount writable.
    pub fn writable(self) -> (r: Self)
        ensures
            r@ == match self@ {
                MountView::Bind { src, ignore_nonexist, recursive, .. } => MountView::Bind {
                    src,
                    rw: true,
                    ignore_nonexist,
                    recursive,
                },
                MountView::Tmpfs { opts, .. } => MountView::Tmpfs { rw: true, opts },
                MountView::Normal { src, ignore_nonexist, opts, .. } => MountView::Normal {
                    src,
                    rw: true,
                    ignore_nonexist,
                    opts,
                },
            },
    {
        match self.0 {
            Priv::Bind { src, recursive, ignore_nonexist, .. } => Self(
                Priv::Bind { src, recursive, ignore_nonexist, rw: true },
            ),
            Priv::Tmpfs { opts, .. } => Self(Priv::Tmpfs { opts, rw: true }),
            Priv::Normal { opts, src, ignore_nonexist, .. } => Self(
                Priv::Normal { opts, src, ignore_nonexist, rw: true },
            ),
        }
    }

    /// Make the mount recursive.  Only a bind mount is affected; a
    /// recursive bind mount also ignores a missing source.
    pub fn recursive(self) -> (r: Self)
        ensures
            r@ == match self@ {
                MountView::Bind { src, rw, .. } => MountView::Bind {
                    src,
                    rw,
                    recursive: true,
                    ignore_nonexist: true,
                },
                _ => self@,
            },
    {
        match self.0 {
            Priv::Bind { src, rw, .. } => Self(
                Priv::Bind { src, rw, recursive: true, ignore_nonexist: true },
            ),
            other => Self(other),
        }
    }

    /// Append a mount option.  If the option contains a comma, or it is
    /// empty, `ro` or `rw`, or the mount is a bind mount, `None` is
    /// returned; the option is not validated further.
    ///
    /// For `rw`, use [`Mount::writable`] instead.
    pub fn opt(self, option: &str) -> (r: Option<Self>)
        ensures
            match self@ {
                MountView::Bind { .. } => r is None,
                MountView::Tmpfs { rw, opts } => if opt_allowed(option@) {
                    r matches Some(m) && m@ == (MountView::Tmpfs { rw, opts: opts.push(option@) })
                } else {
                    r is None
                },
                MountView::Normal { src, rw, ignore_nonexist, opts } => if opt_allowed(option@) {
                    r matches Some(m) && m@ == (MountView::Normal {
                        src,
                        rw,
                        ignore_nonexist,
                        opts: opts.push(option@),
                    })
                } else {
                    r is None
                },
            },
    {
        proof {
            reveal_strlit("");
        }
        if contains_char(option, ',') {
            return None;
        }
        if option.is_empty() || str_eq(option, "ro") || str_eq(option, "rw") {
            proof {
                if option@.len() == 0 {
                    assert(option@ =~= ""@);
                }
            }
            return None;
        }
        assert(option@ != ""@);
        match self.0 {
            Priv::Bind { .. } => None,
            Priv::Tmpfs { rw, mut opts } => {
                let ghost old_opts = opts.deep_view();
                opts.push(option.to_owned());
                proof {
                    assert(opts.deep_view() =~= old_opts.push(option@));
                }
                Some(Self(Priv::Tmpfs { rw, opts }))
            }
            Priv::Normal { src, rw, mut opts, ignore_nonexist } => {
                let ghost old_opts = opts.deep_view();
                opts.push(option.to_owned());
                proof {
                    assert(opts.deep_view() =~= old_opts.push(option@));
                }
                Some(Self(Priv::Normal { src, rw, opts, ignore_nonexist }))
            }
        }
    }

    /// Ignore the mount if the source does not exist.  A tmpfs mount is
    /// not affected.
    pub fn ignore_nonexist(self) -> (r: Self)
        ensures
            r@ == match self@ {
                MountView::Bind { src, rw, recursive, .. } => MountView::Bind {
                    src,
                    rw,
                    recursive,
                    ignore_nonexist: true,
                },
                MountView::Tmpfs { rw, opts } => MountView::Tmpfs { rw, opts },
                MountView::Normal { src, rw, opts, .. } => MountView::Normal {
                    src,
                    rw,
                    opts,
                    ignore_nonexist: true,
                },
            },
    {
        match self.0 {
            Priv::Tmpfs { rw, opts } => Self(Priv::Tmpfs { rw, opts }),
            Priv::Normal { src, rw, opts, .. } => Self(
                Priv::Normal { src, rw, opts, ignore_nonexist: true },
            ),
            Priv::Bind { src, rw, recursive, .. } => Self(
                Priv::Bind { src, rw, recursive, ignore_nonexist: true },
            ),
        }
    }
}

/// The escaping of one character in a mount source or destination:
/// backslash, colon and space take a leading backslash.
pub open spec fn escape_mount_char(c: char) -> Seq<char> {
    if c == '\\' || c == ':' || c == ' ' {
        seq!['\\', c]
    } else {
        seq![c]
    }
}

/// The escaping of a whole mount source or destination.
pub open spec fn escape_mount_chars(s: Seq<char>) -> Seq<char>
    decreases s.len(),
{
    if s.len() == 0 {
        Seq::empty()
    } else {
        escape_mount_char(s[0]) + escape_mount_chars(s.drop_first())
    }
}

proof fn lemma_escape_mount_append(a: Seq<char>, b: Seq<char>)
    ensures
        escape_mount_chars(a + b) == escape_mount_chars(a) + escape_mount_chars(b),
    decreases a.len(),
{
    if a.len() == 0 {
        assert(a + b =~= b);
        assert(escape_mount_chars(a) + escape_mount_chars(b) =~= escape_mount_chars(b));
    } else {
        assert((a + b).drop_first() =~= a.drop_first() + b);
        lemma_escape_mount_append(a.drop_first(), b);
        assert(escape_mount_chars(a + b) =~= escape_mount_chars(a) + escape_mount_chars(b));
    }
}

fn escape(s: &str) -> (r: String)
    ensures
        r@ == escape_mount_chars(s@),
{
    let mut out = String::new();
    let n = s.unicode_len();
    for i in 0..n
        invariant
            n == s@.len(),
            out@ == escape_mount_chars(s@.take(i as int)),
    {
        let c = s.get_char(i);
        if c == '\\' || c == ':' || c == ' ' {
            out.push('\\');
            out.push(c);
        } else {
            out.push(c);
        }
        proof {
            assert(s@.take(i + 1) =~= s@.take(i as int) + seq![s@[i as int]]);
            lemma_escape_mount_append(s@.take(i as int), seq![s@[i as int]]);
            assert(seq![s@[i as int]].drop_first() =~= Seq::<char>::empty());
            assert(escape_mount_chars(Seq::<char>::empty()) == Seq::<char>::empty());
            assert(escape_mount_chars(seq![s@[i as int]]) =~= escape_mount_char(s@[i as int]));
            assert(out@ =~= escape_mount_chars(s@.take(i + 1)));
        }
    }
    proof {
        assert(s@.take(n as int) =~= s@);
    }
    out
}

/// A marshalled mount: the wire shape of one mount, sorted by kind.
#[derive(Debug, PartialEq)]
pub enum MarshaledMount {
    /// source, destination, ignore-missing, flags (the recursive bit or 0)
    Bind(String, String, bool, u64),
    /// source, destination, ignore-missing, flags (the recursive bit or 0)
    BindReadOnly(String, String, bool, u64),
    /// source, destination, ignore-missing, `(partition label, option)` pairs
    Normal(String, String, bool, Vec<(String, String)>),
    /// destination, options joined with commas
    Tmpfs(String, String),
}

/// The mathematical shape of a [`MarshaledMount`].
pub enum MarshaledMountView {
    Bind(Seq<char>, Seq<char>, bool, u64),
    BindReadOnly(Seq<char>, Seq<char>, bool, u64),
    Normal(Seq<char>, Seq<char>, bool, Seq<(Seq<char>, Seq<char>)>),
    Tmpfs(Seq<char>, Seq<char>),
}

impl View for MarshaledMount {
    type V = MarshaledMountView;

    open spec fn view(&self) -> MarshaledMountView {
        match self {
            MarshaledMount::Bind(a, b, c, d) => MarshaledMountView::Bind(
                a.deep_view(),
                b.deep_view(),
                *c,
                *d,
            ),
            MarshaledMount::BindReadOnly(a, b, c, d) => MarshaledMountView::BindReadOnly(
                a.deep_view(),
                b.deep_view(),
                *c,
                *d,
            ),
            MarshaledMount::Normal(a, b, c, d) => MarshaledMountView::Normal(
                a.deep_view(),
                b.deep_view(),
                *c,
                d.deep_view(),
            ),
            MarshaledMount::Tmpfs(a, b) => MarshaledMountView::Tmpfs(a.deep_view(), b.deep_view()),
        }
    }
}

/// The flag word of a bind mount: the recursive bit (16384, `MS_REC`)
/// when recursion was requested, else 0.
pub open spec fn bind_flags(recursive: bool) -> u64 {
    if recursive {
        16384
    } else {
        0
    }
}

/// The option list with the trailing `ro` appended for a mount that is
/// not writable.
pub open spec fn with_readonly(opts: Seq<Seq<char>>, rw: bool) -> Seq<Seq<char>> {
    if rw {
        opts
    } else {
        opts.push("ro"@)
    }
}

/// The options of a tmpfs mount joined with commas.
pub open spec fn join_comma(ss: Seq<Seq<char>>) -> Seq<char>
    decreases ss.len(),
{
    if ss.len() == 0 {
        Seq::empty()
    } else if ss.len() == 1 {
        ss[0]
    } else {
        ss[0] + seq![','] + join_comma(ss.drop_first())
    }
}

proof fn lemma_join_comma_push(ss: Seq<Seq<char>>, x: Seq<char>)
    ensures
        join_comma(ss.push(x)) == if ss.len() == 0 {
            x
        } else {
            join_comma(ss) + seq![','] + x
        },
    decreases ss.len(),
{
    if ss.len() == 0 {
        assert(ss.push(x)[0] =~= x);
        assert(join_comma(ss.push(x)) =~= x);
    } else if ss.len() == 1 {
        assert(ss.push(x).drop_first() =~= seq![x]);
        assert(join_comma(seq![x]) == x);
        assert(join_comma(ss.push(x)) =~= ss[0] + seq![','] + x);
    } else {
        assert(ss.push(x).drop_first() =~= ss.drop_first().push(x));
        lemma_join_comma_push(ss.drop_first(), x);
        assert(join_comma(ss.push(x)) =~= join_comma(ss) + seq![','] + x);
    }
}

/// The wire shape of one mount at the given mount point.
pub open spec fn marshal_mount(mp: Seq<char>, m: MountView) -> MarshaledMountView {
    match m {
        MountView::Bind { src, rw, ignore_nonexist, recursive } => {
            if rw {
                MarshaledMountView::Bind(
                    escape_mount_chars(src),
                    escape_mount_chars(mp),
                    ignore_nonexist,
                    bind_flags(recursive),
                )
            } else {
                MarshaledMountView::BindReadOnly(
                    escape_mount_chars(src),
                    escape_mount_chars(mp),
                    ignore_nonexist,
                    bind_flags(recursive),
                )
            }
        }
        MountView::Normal { src, rw, ignore_nonexist, opts } => MarshaledMountView::Normal(
            escape_mount_chars(src),
            escape_mount_chars(mp),
            ignore_nonexist,
            with_readonly(opts, rw).map_values(|o: Seq<char>| ("root"@, o)),
        ),
        MountView::Tmpfs { rw, opts } => MarshaledMountView::Tmpfs(
            escape_mount_chars(mp),
            join_comma(with_readonly(opts, rw)),
        ),
    }
}

fn join_opts(opts: &Vec<String>, rw: bool) -> (r: String)
    ensures
        r@ == join_comma(with_readonly(opts.deep_view(), rw)),
{
    let mut out = String::new();
    let n = opts.len();
    for i in 0..n
        invariant
            n == opts.deep_view().len(),
            out@ == join_comma(opts.deep_view().take(i as int)),
    {
        if i > 0 {
            out.push(',');
        }
        out.append(opts[i].as_str());
        proof {
            let pfx = opts.deep_view().take(i as int);
            assert(opts.deep_view().take(i + 1) =~= pfx.push(opts.deep_view()[i as int]));
            lemma_join_comma_push(pfx, opts.deep_view()[i as int]);
            assert(opts.deep_view()[i as int] == opts[i as int]@);
            assert(out@ =~= join_comma(opts.deep_view().take(i + 1)));
        }
    }
    proof {
        assert(opts.deep_view().take(n as int) =~= opts.deep_view());
    }
    if !rw {
        if n > 0 {
            out.push(',');
        }
        out.append("ro");
        proof {
            lemma_join_comma_push(opts.deep_view(), "ro"@);
            assert(out@ =~= join_comma(with_readonly(opts.deep_view(), rw)));
        }
    }
    out
}

pub(crate) fn marshal_ref(mp: &str, mount: &Mount) -> (r: MarshaledMount)
    ensures
        r@ == marshal_mount(mp@, mount@),
{
    match &mount.0 {
        Priv::Bind { src, rw, ignore_nonexist, recursive } => {
            let s = escape(src.as_str());
            let p = escape(mp);
            let flags: u64 = if *recursive {
                16384
            } else {
                0
            };
            if *rw {
                MarshaledMount::Bind(s, p, *ignore_nonexist, flags)
            } else {
                MarshaledMount::BindReadOnly(s, p, *ignore_nonexist, flags)
            }
        }
        Priv::Normal { src, rw, ignore_nonexist, opts } => {
            let s = escape(src.as_str());
            let p = escape(mp);
            let mut pairs: Vec<(String, String)> = Vec::new();
            let n = opts.len();
            for i in 0..n
                invariant
                    n == opts.deep_view().len(),
                    pairs.deep_view() =~= opts.deep_view().take(i as int).map_values(
                        |o: Seq<char>| ("root"@, o),
                    ),
            {
                pairs.push((String::from_str("root"), opts[i].clone()));
                proof {
                    let pfx = opts.deep_view().take(i as int);
                    assert(opts.deep_view().take(i + 1) =~= pfx.push(opts.deep_view()[i as int]));
                    pfx.lemma_push_map_commute(
                        |o: Seq<char>| ("root"@, o),
                        opts.deep_view()[i as int],
                    );
                    assert(pairs.deep_view() =~= opts.deep_view().take(i + 1).map_values(
                        |o: Seq<char>| ("root"@, o),
                    ));
                }
            }
            if !*rw {
                pairs.push((String::from_str("root"), String::from_str("ro")));
            }
            proof {
                assert(opts.deep_view().take(n as int) =~= opts.deep_view());
                if !*rw {
                    opts.deep_view().lemma_push_map_commute(|o: Seq<char>| ("root"@, o), "ro"@);
                    assert(pairs.deep_view() =~= with_readonly(opts.deep_view(), *rw).map_values(
                        |o: Seq<char>| ("root"@, o),
                    ));
                } else {
                    assert(pairs.deep_view() =~= with_readonly(opts.deep_view(), *rw).map_values(
                        |o: Seq<char>| ("root"@, o),
                    ));
                }
            }
            MarshaledMount::Normal(s, p, *ignore_nonexist, pairs)
        }
        Priv::Tmpfs { rw, opts } => {
            let p = escape(mp);
            let joined = join_opts(opts, *rw);
            MarshaledMount::Tmpfs(p, joined)
        }
    }
}

/// Render one mount as its wire shape.
pub fn marshal(mount_point: &str, mount: Mount) -> (r: MarshaledMount)
    ensures
        r@ == marshal_mount(mount_point@, mount@),
{
    marshal_ref(mount_point, &mount)
}

} // verus!
