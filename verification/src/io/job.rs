use vstd::prelude::*;
use crate::domain::postprocessors::PostprocessorCapabilities;
use crate::error::ChipmunkError;
use crate::io::parsing::OperationConfig;
use crate::nc::ir::{NCBlock, BlockView, blocks_view, text_view};
use crate::operations::blocks_result;

verus! {

/// The NC blocks of `operations`, one operation after the other, in a job
/// with the given clearance height and post-processor capabilities; or the
/// error of the first operation that fails.
pub open spec fn job_blocks(
    operations: Seq<OperationConfig>,
    clearance: i64,
    capabilities: Map<Seq<char>, Seq<Seq<char>>>,
) -> Result<Seq<BlockView>, ChipmunkError>
    decreases operations.len(),
{
    if operations.len() == 0 {
        Ok(Seq::empty())
    } else {
        match job_blocks(operations.drop_last(), clearance, capabilities) {
            Err(e) => Err(e),
            Ok(before) => match operations.last().spec_blocks(clearance, capabilities) {
                Err(e) => Err(e),
                Ok(blocks) => Ok(before + blocks),
            },
        }
    }
}

/// Every operation is within the limits it needs.
pub open spec fn operations_wf(operations: Seq<OperationConfig>) -> bool {
    forall|i: int| 0 <= i < operations.len() ==> #[trigger] operations[i].wf()
}

/// Compiles the operations of a job into one NC program: an error if the
/// job has no operation; else each operation turned into an operation,
/// its tool path generated and compiled, the blocks of all operations one
/// after the other (see [`job_blocks`]).
pub fn compile_operations(
    operations: Vec<OperationConfig>,
    clearance: i64,
    capabilities: &PostprocessorCapabilities,
) -> (r: Result<Vec<NCBlock>, ChipmunkError>)
    requires
        operations_wf(operations@),
    ensures
        operations@.len() == 0 ==> r == Err::<Vec<NCBlock>, ChipmunkError>(ChipmunkError::NoOperations),
        operations@.len() > 0 ==> blocks_result(r) == job_blocks(operations@, clearance, capabilities@),
{
    if operations.len() == 0 {
        return Err(ChipmunkError::NoOperations);
    }
    let ghost all = operations@;
    let total = operations.len();
    let mut rest = operations;
    let mut blocks: Vec<NCBlock> = Vec::new();
    let mut done: usize = 0;
    proof {
        assert(all.take(0) =~= Seq::<OperationConfig>::empty());
        assert(blocks_view(blocks@) =~= Seq::<BlockView>::empty());
    }
    while done < total
        invariant
            all == operations@,
            total == all.len(),
            done <= total,
            rest@ == all.skip(done as int),
            operations_wf(all),
            job_blocks(all.take(done as int), clearance, capabilities@) == Ok::<
                Seq<BlockView>,
                ChipmunkError,
            >(blocks_view(blocks@)),
        decreases total - done,
    {
        let config = rest.remove(0);
        proof {
            assert(config == all[done as int]);
            assert(all.take(done + 1).drop_last() =~= all.take(done as int));
            assert(all.take(done + 1).last() == config);
            assert(config.wf());
        }
        let op = match config.into_operation(clearance, capabilities) {
            Ok(op) => op,
            Err(e) => {
                proof {
                    lemma_job_blocks_error(all, done as int, clearance, capabilities@);
                }
                return Err(e);
            },
        };
        let segments = match op.generate() {
            Ok(segments) => segments,
            Err(e) => {
                proof {
                    lemma_job_blocks_error(all, done as int, clearance, capabilities@);
                }
                return Err(e);
            },
        };
        let mut op_blocks = match op.compile(segments.as_slice()) {
            Ok(b) => b,
            Err(e) => {
                proof {
                    lemma_job_blocks_error(all, done as int, clearance, capabilities@);
                }
                return Err(e);
            },
        };
        let ghost before = blocks_view(blocks@);
        let ghost added = blocks_view(op_blocks@);
        blocks.append(&mut op_blocks);
        proof {
            assert(blocks_view(blocks@) =~= before + added);
        }
        done = done + 1;
    }
    proof {
        assert(all.take(total as int) =~= all);
    }
    Ok(blocks)
}

/// Where the operation at `k` fails and those before it succeed, the job
/// fails with that operation's error.
proof fn lemma_job_blocks_error(
    all: Seq<OperationConfig>,
    k: int,
    clearance: i64,
    capabilities: Map<Seq<char>, Seq<Seq<char>>>,
)
    requires
        0 <= k < all.len(),
        job_blocks(all.take(k), clearance, capabilities) is Ok,
        all[k].spec_blocks(clearance, capabilities) is Err,
    ensures
        job_blocks(all, clearance, capabilities) == Err::<Seq<BlockView>, ChipmunkError>(
            all[k].spec_blocks(clearance, capabilities)->Err_0,
        ),
    decreases all.len() - k,
{
    assert(all.take(k + 1).drop_last() =~= all.take(k));
    assert(all.take(k + 1).last() == all[k]);
    lemma_job_blocks_error_extends(all, k + 1, clearance, capabilities);
}

/// An error of a prefix of the operations is the error of them all.
proof fn lemma_job_blocks_error_extends(
    all: Seq<OperationConfig>,
    k: int,
    clearance: i64,
    capabilities: Map<Seq<char>, Seq<Seq<char>>>,
)
    requires
        0 <= k <= all.len(),
        job_blocks(all.take(k), clearance, capabilities) is Err,
    ensures
        job_blocks(all, clearance, capabilities) == job_blocks(all.take(k), clearance, capabilities),
    decreases all.len() - k,
{
    if k == all.len() {
        assert(all.take(k) =~= all);
    } else {
        assert(all.take(k + 1).drop_last() =~= all.take(k));
        lemma_job_blocks_error_extends(all, k + 1, clearance, capabilities);
    }
}

/// The name of the NC program: the job's name, `"unnamed"` if it has none.
pub fn program_name(name: &Option<String>) -> (r: String)
    ensures
        r@ == match name {
            Some(n) => n@,
            None => "unnamed"@,
        },
{
    match name {
        Some(n) => n.clone(),
        None => String::from_str("unnamed"),
    }
}

/// The characters of `p` after its last `sep`; all of `p` if it has none.
pub open spec fn after_last(p: Seq<char>, sep: char) -> Seq<char>
    decreases p.len(),
{
    if p.len() == 0 || p.last() == sep {
        Seq::empty()
    } else {
        after_last(p.drop_last(), sep).push(p.last())
    }
}

/// The last component of the path `p`, as a path's components are read:
/// separated by `/`, with empty components and `.` components left out.
pub open spec fn last_component(p: Seq<char>) -> Option<Seq<char>>
    decreases p.len(),
{
    if p.len() == 0 {
        None
    } else if p.last() == '/' {
        last_component(p.drop_last())
    } else if after_last(p, '/') == seq!['.'] {
        last_component(p.drop_last())
    } else {
        Some(after_last(p, '/'))
    }
}

/// The file name of the path `p`: its last component, unless there is none
/// or it is `..`.
pub open spec fn file_name(p: Seq<char>) -> Option<Seq<char>> {
    match last_component(p) {
        Some(c) => if c == seq!['.', '.'] {
            None
        } else {
            Some(c)
        },
        None => None,
    }
}

/// A file name without its extension: the part before the last `.`,
/// unless that `.` is the first character or there is none.
pub open spec fn stem(name: Seq<char>) -> Seq<char> {
    let extension = after_last(name, '.');
    if extension.len() + 1 < name.len() {
        name.subrange(0, name.len() - extension.len() - 1)
    } else {
        name
    }
}

/// The stem of the file name of the path `p`, as `std::path::Path::file_stem`
/// gives it on Unix.
pub open spec fn spec_file_stem(p: Seq<char>) -> Option<Seq<char>> {
    match file_name(p) {
        Some(name) => Some(stem(name)),
        None => None,
    }
}

/// Where the run of characters other than `sep` that ends at `end` starts.
fn run_start(s: &str, end: usize, sep: char) -> (start: usize)
    requires
        end <= s@.len(),
    ensures
        start <= end,
        s@.subrange(start as int, end as int) == after_last(s@.take(end as int), sep),
{
    let mut start = end;
    proof {
        assert(s@.subrange(start as int, end as int) =~= Seq::<char>::empty());
        assert(after_last(s@.take(end as int), sep) =~= after_last(s@.take(start as int), sep)
            + s@.subrange(start as int, end as int));
    }
    while start > 0 && s.get_char(start - 1) != sep
        invariant
            start <= end,
            end <= s@.len(),
            after_last(s@.take(end as int), sep) == after_last(s@.take(start as int), sep)
                + s@.subrange(start as int, end as int),
        decreases start,
    {
        proof {
            let t = s@.take(start as int);
            assert(t.drop_last() =~= s@.take(start - 1));
            assert(t.last() == s@[start - 1]);
            assert(after_last(t, sep) == after_last(s@.take(start - 1), sep).push(s@[start - 1]));
            assert(after_last(s@.take(start - 1), sep).push(s@[start - 1]) + s@.subrange(
                start as int,
                end as int,
            ) =~= after_last(s@.take(start - 1), sep) + s@.subrange(start - 1, end as int));
        }
        start = start - 1;
    }
    proof {
        if start > 0 {
            assert(s@.take(start as int).last() == s@[start - 1]);
        }
        assert(after_last(s@.take(start as int), sep) =~= Seq::<char>::empty());
        assert(after_last(s@.take(end as int), sep) =~= s@.subrange(start as int, end as int));
    }
    start
}

/// The stem of a file name, or none for `..` (see [`file_name`], [`stem`]).
fn name_stem(name: &str) -> (r: Option<String>)
    ensures
        text_view(r) == (if name@ == seq!['.', '.'] {
            None
        } else {
            Some(stem(name@))
        }),
{
    let n = name.unicode_len();
    if n == 2 && name.get_char(0) == '.' && name.get_char(1) == '.' {
        assert(name@ =~= seq!['.', '.']);
        return None;
    }
    assert(name@ != seq!['.', '.']) by {
        if name@ == seq!['.', '.'] {
            assert(name@[0] == '.' && name@[1] == '.');
        }
    }
    let after_dot = run_start(name, n, '.');
    proof {
        assert(name@.take(n as int) =~= name@);
    }
    if after_dot >= 2 {
        Some(name.substring_char(0, after_dot - 1).to_owned())
    } else {
        Some(name.to_owned())
    }
}

/// The stem of the file name of `path` (see [`spec_file_stem`]).
pub fn file_stem(path: &str) -> (r: Option<String>)
    ensures
        text_view(r) == spec_file_stem(path@),
{
    let mut end = path.unicode_len();
    proof {
        assert(path@.take(end as int) =~= path@);
    }
    while end > 0
        invariant
            end <= path@.len(),
            last_component(path@) == last_component(path@.take(end as int)),
        decreases end,
    {
        let ghost prefix = path@.take(end as int);
        proof {
            assert(prefix.drop_last() =~= path@.take(end - 1));
            assert(prefix.last() == path@[end - 1]);
        }
        let c = path.get_char(end - 1);
        if c == '/' {
            end = end - 1;
        } else {
            let start = run_start(path, end, '/');
            let one_dot = end - start == 1 && c == '.';
            assert(one_dot == (after_last(prefix, '/') == seq!['.'])) by {
                let a = after_last(prefix, '/');
                if one_dot {
                    assert(a =~= seq!['.']);
                }
                if a == seq!['.'] {
                    assert(a.len() == 1);
                    assert(a[0] == path@[start as int]);
                }
            }
            if one_dot {
                end = end - 1;
            } else {
                let component = path.substring_char(start, end);
                return name_stem(component);
            }
        }
    }
    None
}

/// The name of a job: the one it is given, else the stem of the file name
/// of its path, if the path has one.
pub fn job_name(name: Option<String>, path: &str) -> (r: Option<String>)
    ensures
        text_view(r) == match name {
            Some(n) => Some(n@),
            None => spec_file_stem(path@),
        },
{
    match name {
        Some(n) => Some(n),
        None => file_stem(path),
    }
}

} // verus!
