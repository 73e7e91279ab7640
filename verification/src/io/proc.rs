//! The format of the files that describe a process.

use vstd::prelude::*;

verus! {

/// The index of the first zero byte of `data` at or behind `from`, or the
/// length of `data` where there is none.
pub open spec fn next_nul(data: Seq<u8>, from: int) -> int
    decreases data.len() - from,
{
    if from < 0 || from >= data.len() {
        data.len() as int
    } else if data[from] == 0 {
        from
    } else {
        next_nul(data, from + 1)
    }
}

/// The arguments that a command line file holds from index `from` on. Each
/// argument ends at a zero byte or at the end of the file, and an argument
/// without bytes is left out.
pub open spec fn arguments_from(data: Seq<u8>, from: int) -> Seq<Seq<u8>>
    decreases data.len() - from,
{
    if from < 0 || from >= data.len() {
        Seq::empty()
    } else {
        let end = next_nul(data, from);
        if end <= from {
            arguments_from(data, from + 1)
        } else if end >= data.len() {
            seq![data.subrange(from, data.len() as int)]
        } else {
            seq![data.subrange(from, end)] + arguments_from(data, end + 1)
        }
    }
}

/// The arguments that a command line file holds.
pub open spec fn arguments(data: Seq<u8>) -> Seq<Seq<u8>> {
    arguments_from(data, 0)
}

/// The arguments in `list`, each as its bytes.
pub open spec fn bytes_of(list: Seq<Vec<u8>>) -> Seq<Seq<u8>> {
    list.map_values(|argument: Vec<u8>| argument@)
}

/// Splits the contents of a command line file into its arguments.
///
/// The file holds the arguments one after the other, each followed by a
/// zero byte. Arguments without bytes are left out.
pub fn split_cmdline(data: &[u8]) -> (list: Vec<Vec<u8>>)
    ensures
        bytes_of(list@) == arguments(data@),
{
    let mut list: Vec<Vec<u8>> = Vec::new();
    let mut start: usize = 0;
    assert(bytes_of(list@) =~= Seq::<Seq<u8>>::empty());
    while start < data.len()
        invariant
            start <= data@.len(),
            arguments(data@) == bytes_of(list@) + arguments_from(data@, start as int),
        decreases data@.len() - start,
    {
        let mut argument: Vec<u8> = Vec::new();
        let mut end: usize = start;
        while end < data.len() && data[end] != 0
            invariant
                start <= end <= data@.len(),
                next_nul(data@, start as int) == next_nul(data@, end as int),
                argument@ == data@.subrange(start as int, end as int),
            decreases data@.len() - end,
        {
            argument.push(data[end]);
            end = end + 1;
            assert(argument@ =~= data@.subrange(start as int, end as int));
        }
        assert(next_nul(data@, start as int) == end);
        let ghost before = bytes_of(list@);
        let ghost rest = arguments_from(data@, start as int);
        if end > start {
            list.push(argument);
            assert(bytes_of(list@) =~= before + seq![data@.subrange(start as int, end as int)]);
        }
        if end < data.len() {
            start = end + 1;
        } else {
            start = end;
        }
        assert(rest =~= bytes_of(list@).skip(before.len() as int) + arguments_from(
            data@,
            start as int,
        ));
        assert(arguments(data@) =~= bytes_of(list@) + arguments_from(data@, start as int));
    }
    list
}

} // verus!
