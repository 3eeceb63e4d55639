//! The store connection setting: `user:password@url:dbname`, where the part
//! up to `@` and the password are optional.
use vstd::prelude::*;
use vstd::string::StringExecFns;
use crate::text::{split_on, split_chars, views};

verus! {

/// Where and as whom to reach the store.
#[derive(Debug, PartialEq, Eq)]
pub struct InfluxConfig {
    pub url: String,
    pub dbname: String,
    /// User name and password; the password is the user name where absent.
    pub auth: Option<(String, String)>,
}

/// The pieces joined with `sep` between each two.
pub open spec fn join_with(parts: Seq<Seq<char>>, sep: char) -> Seq<char>
    decreases parts.len(),
{
    if parts.len() == 0 {
        Seq::empty()
    } else if parts.len() == 1 {
        parts[0]
    } else {
        join_with(parts.drop_last(), sep) + seq![sep] + parts.last()
    }
}

pub open spec fn config_url(s: Seq<char>) -> Seq<char> {
    join_with(split_on(split_on(s, '@').last(), ':').drop_last(), ':')
}

pub open spec fn config_dbname(s: Seq<char>) -> Seq<char> {
    split_on(split_on(s, '@').last(), ':').last()
}

pub open spec fn config_auth(s: Seq<char>) -> Option<(Seq<char>, Seq<char>)> {
    let pieces = split_on(s, '@');
    if pieces.len() > 1 {
        let np = split_on(pieces[0], ':');
        Some((np[0], if np.len() > 1 { np[1] } else { np[0] }))
    } else {
        None
    }
}

fn join_strings(parts: &Vec<String>, n: usize, sep: &str) -> (r: String)
    requires
        n <= parts.len(),
        sep@.len() == 1,
    ensures
        r@ == join_with(views(parts@).subrange(0, n as int), sep@[0]),
{
    let mut out = String::new();
    let mut i: usize = 0;
    while i < n
        invariant
            n <= parts.len(),
            sep@.len() == 1,
            i <= n,
            out@ == join_with(views(parts@).subrange(0, i as int), sep@[0]),
        decreases n - i,
    {
        proof {
            assert(views(parts@).subrange(0, i + 1).drop_last() =~= views(parts@).subrange(0, i as int));
            assert(sep@ =~= seq![sep@[0]]);
        }
        if i > 0 {
            out.append(sep);
        }
        out.append(parts[i].as_str());
        i = i + 1;
    }
    out
}

/// Reads the connection setting.
pub fn parse_influx_client(s: &str) -> (r: InfluxConfig)
    ensures
        r.url@ == config_url(s@),
        r.dbname@ == config_dbname(s@),
        match r.auth {
            Some((u, p)) => config_auth(s@) == Some((u@, p@)),
            None => config_auth(s@).is_none(),
        },
{
    let pieces = split_chars(s, '@');
    proof {
        crate::text::lemma_split_on_nonempty(s@, '@');
    }
    let conn = pieces[pieces.len() - 1].as_str();
    let parts = split_chars(conn, ':');
    proof {
        crate::text::lemma_split_on_nonempty(conn@, ':');
        assert(views(parts@).subrange(0, parts.len() - 1) =~= views(parts@).drop_last());
    }
    let colon = ":";
    proof {
        reveal_strlit(":");
    }
    let url = join_strings(&parts, parts.len() - 1, colon);
    let dbname = parts[parts.len() - 1].clone();
    let auth = if pieces.len() > 1 {
        let np = split_chars(pieces[0].as_str(), ':');
        proof {
            crate::text::lemma_split_on_nonempty(pieces@[0]@, ':');
        }
        let user = np[0].clone();
        let password = if np.len() > 1 {
            np[1].clone()
        } else {
            np[0].clone()
        };
        Some((user, password))
    } else {
        None
    };
    InfluxConfig { url, dbname, auth }
}

} // verus!
