use vstd::prelude::*;

use polars::prelude::SerReader;

verus! {

#[verifier::external_type_specification]
#[verifier::external_body]
pub struct ExDataFrame(polars::prelude::DataFrame);

#[verifier::external_type_specification]
#[verifier::external_body]
pub struct ExColumn(polars::prelude::Column);

#[verifier::external_type_specification]
#[verifier::external_body]
pub struct ExPolarsError(polars::prelude::PolarsError);

/// The rows a columnar frame holds, in order, each row denoted by an
/// abstract token: the contracts here only ever concatenate rows and
/// compare them for equality, never look inside one.
pub uninterp spec fn frame_rows(df: polars::prelude::DataFrame) -> Seq<int>;

/// What decoding one columnar file yields: the rows it holds, or
/// nothing when the bytes do not decode. The result is a function of
/// the bytes alone.
pub uninterp spec fn parquet_rows_of(bytes: Seq<u8>) -> Option<Seq<int>>;

/// Relies on `DataFrame::default`: the default frame has no columns
/// and no rows.
#[verifier::external_body]
pub(crate) fn empty_frame() -> (r: polars::prelude::DataFrame)
    ensures
        frame_rows(r) == Seq::<int>::empty(),
{
    polars::prelude::DataFrame::default()
}

/// Relies on `DataFrame::height`: the number of rows.
#[verifier::external_body]
pub(crate) fn frame_height(df: &polars::prelude::DataFrame) -> (r: usize)
    ensures
        r == frame_rows(*df).len(),
{
    df.height()
}

/// Relies on `DataFrame::clone`: a clone holds the same rows.
#[verifier::external_body]
pub(crate) fn clone_frame(df: &polars::prelude::DataFrame) -> (r: polars::prelude::DataFrame)
    ensures
        frame_rows(r) == frame_rows(*df),
{
    df.clone()
}

/// Relies on `ParquetReader::finish`: decodes one columnar file held
/// in memory into a frame; which bytes decode is the decoder's own
/// affair, but the outcome depends on the bytes alone.
#[verifier::external_body]
pub(crate) fn decode_parquet(bytes: &Vec<u8>) -> (r: Result<polars::prelude::DataFrame, String>)
    ensures
        r is Ok <==> parquet_rows_of(bytes@) is Some,
        r is Ok ==> Some(frame_rows(r->Ok_0)) == parquet_rows_of(bytes@),
{
    let cursor = std::io::Cursor::new(bytes.clone());
    match polars::prelude::ParquetReader::new(cursor).finish() {
        Ok(df) => Ok(df),
        Err(e) => Err(format!("{}", e)),
    }
}

/// Relies on `DataFrame::vstack`: on success the result holds the
/// left frame's rows followed by the right frame's rows. The stack
/// fails on incompatible column layouts, which these contracts do not
/// model: nothing is promised of the failure case.
#[verifier::external_body]
pub(crate) fn vstack_frames(a: &polars::prelude::DataFrame, b: &polars::prelude::DataFrame) -> (r: Result<
    polars::prelude::DataFrame,
    String,
>)
    ensures
        r is Ok ==> frame_rows(r->Ok_0) == frame_rows(*a) + frame_rows(*b),
{
    match a.vstack(b) {
        Ok(df) => Ok(df),
        Err(e) => Err(format!("{}", e)),
    }
}

/// The rows each decoded chunk holds.
pub open spec fn decoded_rows(chunks: Seq<Seq<u8>>) -> Seq<Seq<int>> {
    Seq::new(chunks.len(), |i: int| parquet_rows_of(chunks[i])->0)
}

/// The concatenation of the selected row lists, in order: the rows a
/// merge produces when `sel` says which fragments it kept.
pub open spec fn selected_concat(rows: Seq<Seq<int>>, sel: Seq<bool>) -> Seq<int>
    decreases rows.len(),
{
    if rows.len() == 0 {
        Seq::empty()
    } else {
        selected_concat(rows.drop_last(), sel.drop_last()) + (if sel[rows.len() - 1] {
            rows.last()
        } else {
            Seq::<int>::empty()
        })
    }
}

/// The concatenation of every row list, in order.
pub open spec fn concat_all(rows: Seq<Seq<int>>) -> Seq<int>
    decreases rows.len(),
{
    if rows.len() == 0 {
        Seq::empty()
    } else {
        concat_all(rows.drop_last()) + rows.last()
    }
}

/// The merge is order-preserving: when no fragment was skipped, the
/// merged rows are exactly the fragments' rows concatenated in
/// fragment order.
pub proof fn lemma_merge_order_preserving(rows: Seq<Seq<int>>, sel: Seq<bool>)
    requires
        sel.len() == rows.len(),
        forall|i: int| 0 <= i < sel.len() ==> sel[i],
    ensures
        selected_concat(rows, sel) == concat_all(rows),
    decreases rows.len(),
{
    if rows.len() > 0 {
        lemma_merge_order_preserving(rows.drop_last(), sel.drop_last());
    }
}

/// Fetch order, not completion order, decides the output: two reads
/// that hand the merge the same ordered file contents and skip
/// nothing produce identical rows — whether the files were fetched
/// concurrently or one by one.
pub proof fn lemma_read_modes_agree(chunks: Seq<Seq<u8>>, sel_parallel: Seq<bool>, sel_serial: Seq<
    bool,
>)
    requires
        sel_parallel.len() == chunks.len(),
        sel_serial.len() == chunks.len(),
        forall|i: int| 0 <= i < sel_parallel.len() ==> sel_parallel[i],
        forall|i: int| 0 <= i < sel_serial.len() ==> sel_serial[i],
    ensures
        selected_concat(decoded_rows(chunks), sel_parallel) == selected_concat(
            decoded_rows(chunks),
            sel_serial,
        ),
{
    lemma_merge_order_preserving(decoded_rows(chunks), sel_parallel);
    lemma_merge_order_preserving(decoded_rows(chunks), sel_serial);
}

proof fn lemma_selected_concat_push(rows: Seq<Seq<int>>, sel: Seq<bool>, r: Seq<int>, b: bool)
    requires
        sel.len() == rows.len(),
    ensures
        selected_concat(rows.push(r), sel.push(b)) == selected_concat(rows, sel) + (if b {
            r
        } else {
            Seq::<int>::empty()
        }),
{
    assert(rows.push(r).drop_last() =~= rows);
    assert(sel.push(b).drop_last() =~= sel);
    assert(rows.push(r).last() == r);
}

/// Decodes every fetched chunk and merges the fragments in order by
/// row-wise concatenation. A chunk that does not decode aborts the
/// whole read. A fragment the stack refuses (an incompatible column
/// layout) is skipped and reported as such in the second component —
/// one entry per fragment, `true` where the fragment's rows made it
/// into the result — rather than dropped silently. A fragment is only
/// ever skipped against an accumulator that already holds rows; while
/// the accumulator is empty, every fragment is taken as it stands.
#[verifier::rlimit(60)]
pub fn assemble_table(chunks: &Vec<Vec<u8>>) -> (r: Result<
    (polars::prelude::DataFrame, Vec<bool>),
    String,
>)
    ensures
        r is Ok <==> (forall|i: int|
            0 <= i < chunks@.len() ==> parquet_rows_of(#[trigger] chunks.deep_view()[i]) is Some),
        r is Ok ==> r->Ok_0.1@.len() == chunks@.len(),
        r is Ok ==> frame_rows(r->Ok_0.0) == selected_concat(
            decoded_rows(chunks.deep_view()),
            r->Ok_0.1@,
        ),
        r is Ok ==> (forall|i: int|
            0 <= i < r->Ok_0.1@.len() && !(#[trigger] r->Ok_0.1@[i]) ==> selected_concat(
                decoded_rows(chunks.deep_view()).take(i),
                r->Ok_0.1@.take(i),
            ).len() > 0),
{
    let mut acc = empty_frame();
    let mut report: Vec<bool> = Vec::new();
    let mut i: usize = 0;
    while i < chunks.len()
        invariant
            i <= chunks@.len(),
            report@.len() == i,
            forall|k: int|
                0 <= k < i ==> parquet_rows_of(#[trigger] chunks.deep_view()[k]) is Some,
            frame_rows(acc) == selected_concat(
                decoded_rows(chunks.deep_view()).take(i as int),
                report@,
            ),
            forall|k: int|
                0 <= k < i && !(#[trigger] report@[k]) ==> selected_concat(
                    decoded_rows(chunks.deep_view()).take(k),
                    report@.take(k),
                ).len() > 0,
        decreases chunks@.len() - i,
    {
        let ghost report_before = report@;
        let ghost rows_so_far = decoded_rows(chunks.deep_view()).take(i as int);
        let df = match decode_parquet(&chunks[i]) {
            Ok(df) => df,
            Err(e) => {
                proof {
                    assert(chunks.deep_view()[i as int] == chunks@[i as int]@);
                    assert(parquet_rows_of(chunks.deep_view()[i as int]) is None);
                }
                return Err(e);
            },
        };
        proof {
            assert(chunks.deep_view()[i as int] == chunks@[i as int]@);
            assert(Some(frame_rows(df)) == parquet_rows_of(chunks.deep_view()[i as int]));
            assert(decoded_rows(chunks.deep_view()).take(i as int + 1) =~= rows_so_far.push(
                frame_rows(df),
            ));
        }
        if frame_height(&acc) == 0 {
            proof {
                assert(frame_rows(acc) =~= Seq::<int>::empty());
                lemma_selected_concat_push(rows_so_far, report@, frame_rows(df), true);
            }
            acc = clone_frame(&df);
            report.push(true);
        } else {
            match vstack_frames(&acc, &df) {
                Ok(stacked) => {
                    proof {
                        lemma_selected_concat_push(rows_so_far, report@, frame_rows(df), true);
                    }
                    acc = stacked;
                    report.push(true);
                },
                Err(_) => {
                    proof {
                        lemma_selected_concat_push(rows_so_far, report@, frame_rows(df), false);
                        assert(report_before.take(report_before.len() as int) =~= report_before);
                        assert(selected_concat(rows_so_far, report_before).len() > 0);
                    }
                    report.push(false);
                },
            }
        }
        proof {
            assert forall|k: int| 0 <= k <= report_before.len() implies #[trigger] report@.take(k)
                == report_before.take(k) by {
                assert(report@.take(k) =~= report_before.take(k));
            }
            assert forall|k: int| 0 <= k < report_before.len() implies #[trigger] report@[k]
                == report_before[k] by {}
        }
        i = i + 1;
    }
    proof {
        assert(decoded_rows(chunks.deep_view()).take(i as int) =~= decoded_rows(
            chunks.deep_view(),
        ));
    }
    Ok((acc, report))
}

} // verus!
