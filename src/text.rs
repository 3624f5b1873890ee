use vstd::prelude::*;

verus! {

/// The character of a decimal digit.
pub open spec fn digit_char(d: nat) -> char {
    if d == 0 { '0' } else if d == 1 { '1' } else if d == 2 { '2' } else if d == 3 { '3' }
    else if d == 4 { '4' } else if d == 5 { '5' } else if d == 6 { '6' } else if d == 7 { '7' }
    else if d == 8 { '8' } else { '9' }
}

/// The decimal numeral of `n`, without leading zeros.
pub open spec fn decimal(n: nat) -> Seq<char>
    decreases n,
{
    if n < 10 {
        seq![digit_char(n)]
    } else {
        decimal(n / 10).push(digit_char(n % 10))
    }
}

fn digit_str(d: usize) -> (r: &'static str)
    requires
        d < 10,
    ensures
        r@ == seq![digit_char(d as nat)],
{
    proof {
        reveal_strlit("0");
        reveal_strlit("1");
        reveal_strlit("2");
        reveal_strlit("3");
        reveal_strlit("4");
        reveal_strlit("5");
        reveal_strlit("6");
        reveal_strlit("7");
        reveal_strlit("8");
        reveal_strlit("9");
    }
    if d == 0 { "0" } else if d == 1 { "1" } else if d == 2 { "2" } else if d == 3 { "3" }
    else if d == 4 { "4" } else if d == 5 { "5" } else if d == 6 { "6" } else if d == 7 { "7" }
    else if d == 8 { "8" } else { "9" }
}

/// Appends the decimal numeral of `n` to `out`.
pub fn write_decimal(out: &mut String, n: usize)
    ensures
        final(out)@ == old(out)@ + decimal(n as nat),
    decreases n,
{
    if n >= 10 {
        write_decimal(out, n / 10);
    }
    let d = digit_str(n % 10);
    out.append(d);
    assert(final(out)@ =~= old(out)@ + decimal(n as nat));
}

/// The cells of one row, each followed by a comma.
pub open spec fn cells_text(row: Seq<Seq<char>>) -> Seq<char>
    decreases row.len(),
{
    if row.len() == 0 {
        Seq::empty()
    } else {
        cells_text(row.drop_last()) + row.last() + ","@
    }
}

/// The rows of a matrix, each bracketed and followed by a comma.
pub open spec fn rows_text(m: Seq<Seq<Seq<char>>>) -> Seq<char>
    decreases m.len(),
{
    if m.len() == 0 {
        Seq::empty()
    } else {
        rows_text(m.drop_last()) + "["@ + cells_text(m.last()) + "],"@
    }
}

/// The statement that binds `name` to a float array holding the matrix `m`,
/// whose entries are given as numerals.
pub open spec fn array_text(name: Seq<char>, m: Seq<Seq<Seq<char>>>) -> Seq<char> {
    name + "=np.array(["@ + rows_text(m) + "],dtype=float)\n"@
}

/// Appends one row's cells to `out`.
fn write_cells(out: &mut String, row: &Vec<String>)
    ensures
        final(out)@ == old(out)@ + cells_text(row.deep_view()),
{
    let ghost start = out@;
    let mut j: usize = 0;
    while j < row.len()
        invariant
            j <= row.len(),
            out@ == start + cells_text(row.deep_view().take(j as int)),
        decreases row.len() - j,
    {
        out.append(row[j].as_str());
        out.append(",");
        proof {
            let cells = row.deep_view();
            assert(cells.take(j + 1).drop_last() =~= cells.take(j as int));
            assert(cells.take(j + 1).last() == row[j as int]@);
        }
        j = j + 1;
    }
    assert(row.deep_view().take(row.len() as int) =~= row.deep_view());
}

/// Appends to `out` the statement that binds `name` to a float array holding `m`.
pub fn write_array(out: &mut String, name: &str, m: &Vec<Vec<String>>)
    ensures
        final(out)@ == old(out)@ + array_text(name@, m.deep_view()),
{
    let ghost start = out@ + name@ + "=np.array(["@;
    out.append(name);
    out.append("=np.array([");
    let mut i: usize = 0;
    while i < m.len()
        invariant
            i <= m.len(),
            out@ == start + rows_text(m.deep_view().take(i as int)),
        decreases m.len() - i,
    {
        out.append("[");
        write_cells(out, &m[i]);
        out.append("],");
        proof {
            let rows = m.deep_view();
            assert(rows.take(i + 1).drop_last() =~= rows.take(i as int));
            assert(rows.take(i + 1).last() == m[i as int].deep_view());
        }
        i = i + 1;
    }
    assert(m.deep_view().take(m.len() as int) =~= m.deep_view());
    out.append("],dtype=float)\n");
}

/// Whether `s`, a numeral in the form that `Display` gives a float (`2.5`,
/// `-0`, `inf`, `NaN`), denotes a number greater than zero.
pub open spec fn is_positive_numeral(s: Seq<char>) -> bool {
    s == "inf"@ || (s.len() > 0 && s[0] != '-' && exists|i: int|
        0 <= i < s.len() && '1' <= #[trigger] s[i] && s[i] <= '9')
}

/// Tells whether the numeral `s` denotes a number greater than zero.
pub fn positive_numeral(s: &str) -> (r: bool)
    ensures
        r == is_positive_numeral(s@),
{
    proof {
        reveal_strlit("inf");
    }
    let n = s.unicode_len();
    if n == 3 && s.get_char(0) == 'i' && s.get_char(1) == 'n' && s.get_char(2) == 'f' {
        assert(s@ =~= "inf"@);
        return true;
    }
    if n == 0 || s.get_char(0) == '-' {
        return false;
    }
    let mut i: usize = 0;
    while i < n
        invariant
            n == s@.len(),
            n > 0 && s@[0] != '-',
            i <= n,
            forall|k: int| 0 <= k < i ==> !('1' <= #[trigger] s@[k] && s@[k] <= '9'),
        decreases n - i,
    {
        let c = s.get_char(i);
        if '1' <= c && c <= '9' {
            assert('1' <= s@[i as int] && s@[i as int] <= '9');
            return true;
        }
        i = i + 1;
    }
    false
}

} // verus!
