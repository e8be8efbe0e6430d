//! Concise, portable display of a source file path.

use vstd::prelude::*;

use crate::text::push_char;

verus! {

/// The path with every `\` turned into `/`.
pub open spec fn normalized(s: Seq<char>) -> Seq<char> {
    Seq::new(s.len(), |i: int| if s[i] == '\\' { '/' } else { s[i] })
}

/// Whether `/src/` starts at position `i` of `s`.
pub open spec fn src_at(s: Seq<char>, i: int) -> bool {
    0 <= i && i + 5 <= s.len() && s[i] == '/' && s[i + 1] == 's' && s[i + 2] == 'r' && s[i + 3]
        == 'c' && s[i + 4] == '/'
}

/// The last position at or before `i` where `/src/` starts.
pub open spec fn rfind_src(s: Seq<char>, i: int) -> Option<int>
    decreases i + 1,
{
    if i < 0 {
        None
    } else if src_at(s, i) {
        Some(i)
    } else {
        rfind_src(s, i - 1)
    }
}

/// The start of the component that ends at `end`: just after the last `/`
/// before `end`, or the start of `s`.
pub open spec fn component_start(s: Seq<char>, end: int) -> int
    decreases end,
{
    if end <= 0 {
        0
    } else if s[end - 1] == '/' {
        end
    } else {
        component_start(s, end - 1)
    }
}

/// The last two components of `s` joined by `/`, or only the last one when
/// there is no non-empty component before it.
pub open spec fn last_two_components(s: Seq<char>) -> Seq<char> {
    let last_start = component_start(s, s.len() as int);
    let last = s.subrange(last_start, s.len() as int);
    if last_start == 0 {
        last
    } else {
        let prev_start = component_start(s, last_start - 1);
        let prev = s.subrange(prev_start, last_start - 1);
        if prev.len() > 0 {
            prev + seq!['/'] + last
        } else {
            last
        }
    }
}

/// The display form of a source path: with separators normalized to `/`,
/// `<crate>/src/...` when the path has a `/src/` preceded by a non-empty
/// directory name (the last such `/src/`), else its last two components.
pub open spec fn pretty_location(file: Seq<char>) -> Seq<char> {
    let s = normalized(file);
    match rfind_src(s, s.len() - 5) {
        Some(src_idx) => {
            let crate_start = component_start(s, src_idx);
            if crate_start < src_idx {
                s.subrange(crate_start, s.len() as int)
            } else {
                last_two_components(s)
            }
        },
        None => last_two_components(s),
    }
}

fn find_component_start(s: &Vec<char>, end: usize) -> (r: usize)
    requires
        end <= s.len(),
    ensures
        r == component_start(s@, end as int),
        r <= end,
{
    let mut k = end;
    while k > 0 && s[k - 1] != '/'
        invariant
            0 <= k <= end <= s.len(),
            component_start(s@, end as int) == component_start(s@, k as int),
        decreases k,
    {
        k -= 1;
    }
    k
}

fn find_src(s: &Vec<char>) -> (r: Option<usize>)
    ensures
        r matches Some(i) ==> rfind_src(s@, s.len() - 5) == Some(i as int) && i + 5 <= s.len(),
        r is None ==> rfind_src(s@, s.len() - 5) is None,
{
    if s.len() < 5 {
        return None;
    }
    let mut i = s.len() - 5;
    loop
        invariant
            i + 5 <= s.len(),
            rfind_src(s@, s.len() - 5) == rfind_src(s@, i as int),
        decreases i,
    {
        if s[i] == '/' && s[i + 1] == 's' && s[i + 2] == 'r' && s[i + 3] == 'c' && s[i + 4] == '/' {
            return Some(i);
        }
        if i == 0 {
            assert(rfind_src(s@, -1) is None);
            return None;
        }
        i -= 1;
    }
}

fn push_range(out: &mut String, s: &Vec<char>, from: usize, to: usize)
    requires
        from <= to <= s.len(),
    ensures
        final(out)@ == old(out)@ + s@.subrange(from as int, to as int),
{
    let mut i = from;
    while i < to
        invariant
            from <= i <= to <= s.len(),
            out@ == old(out)@ + s@.subrange(from as int, i as int),
        decreases to - i,
    {
        push_char(out, s[i]);
        assert(s@.subrange(from as int, i + 1) =~= s@.subrange(from as int, i as int).push(
            s@[i as int],
        ));
        i += 1;
    }
}

fn last_two(s: &Vec<char>) -> (r: String)
    ensures
        r@ == last_two_components(s@),
{
    let n = s.len();
    let last_start = find_component_start(s, n);
    let mut out = String::new();
    if last_start == 0 {
        push_range(&mut out, s, 0, n);
    } else {
        let prev_start = find_component_start(s, last_start - 1);
        if prev_start < last_start - 1 {
            push_range(&mut out, s, prev_start, last_start - 1);
            push_char(&mut out, '/');
        }
        push_range(&mut out, s, last_start, n);
    }
    assert(out@ =~= last_two_components(s@));
    out
}

/// Formats a source path for display, as [`pretty_location`] says.
pub fn pretty_location_file(file: &str) -> (r: String)
    ensures
        r@ == pretty_location(file@),
{
    let n = file.unicode_len();
    let mut s: Vec<char> = Vec::new();
    let mut i: usize = 0;
    while i < n
        invariant
            0 <= i <= n,
            n == file@.len(),
            s@ =~= normalized(file@).subrange(0, i as int),
        decreases n - i,
    {
        let c = file.get_char(i);
        s.push(if c == '\\' { '/' } else { c });
        i += 1;
    }
    assert(s@ =~= normalized(file@));
    match find_src(&s) {
        Some(src_idx) => {
            let crate_start = find_component_start(&s, src_idx);
            if crate_start < src_idx {
                let mut out = String::new();
                push_range(&mut out, &s, crate_start, s.len());
                assert(out@ =~= s@.subrange(crate_start as int, s.len() as int));
                out
            } else {
                last_two(&s)
            }
        },
        None => last_two(&s),
    }
}

} // verus!
