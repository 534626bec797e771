//! Text previews: the first lines of a file, how many lines it has, and
//! whether the preview is cut short. The host reads the lines and hands them
//! in one at a time.
use vstd::prelude::*;
use crate::engine::PathKind;
use crate::paths::push_char;

verus! {

/// How many lines a preview keeps when the request gives no limit.
pub const DEFAULT_MAX_LINES: usize = 100;

/// A finished preview.
#[derive(Debug)]
pub struct FilePreviewResult {
    /// The kept lines joined by newlines.
    pub content: String,
    /// How many lines the file has.
    pub line_count: usize,
    /// Some lines were not kept.
    pub is_truncated: bool,
}

/// Why no preview was made.
#[derive(Debug)]
pub enum PreviewError {
    /// The file does not exist.
    NotFound,
    /// The path is a directory.
    IsDirectory,
    /// A line that would be kept is not valid text.
    Binary,
    /// Reading failed, with the host's message.
    Io(String),
}

/// The lines joined, with a newline between each two.
pub open spec fn join_lines_spec(lines: Seq<Seq<char>>) -> Seq<char>
    decreases lines.len(),
{
    if lines.len() == 0 {
        Seq::empty()
    } else if lines.len() == 1 {
        lines[0]
    } else {
        join_lines_spec(lines.drop_last()).push('\n') + lines.last()
    }
}

/// Whether a path of kind `kind` (as probed) can be previewed.
pub fn check_previewable(kind: PathKind) -> (r: Result<(), PreviewError>)
    ensures
        kind == PathKind::Missing <==> r matches Err(PreviewError::NotFound),
        kind == PathKind::Dir <==> r matches Err(PreviewError::IsDirectory),
        kind == PathKind::File <==> r is Ok,
{
    match kind {
        PathKind::Missing => Err(PreviewError::NotFound),
        PathKind::Dir => Err(PreviewError::IsDirectory),
        PathKind::File => Ok(()),
    }
}

/// A preview being built: the lines kept so far, how many lines were seen,
/// and whether any was left out.
pub struct PreviewBuilder {
    pub max: usize,
    pub lines: Vec<String>,
    pub total: usize,
    pub truncated: bool,
}

impl PreviewBuilder {
    /// An empty preview that keeps at most `max_lines` lines
    /// (`DEFAULT_MAX_LINES` when none is given).
    pub fn new(max_lines: Option<usize>) -> (r: PreviewBuilder)
        ensures
            r.max == match max_lines {
                Some(m) => m,
                None => DEFAULT_MAX_LINES,
            },
            r.lines@.len() == 0,
            r.total == 0,
            !r.truncated,
    {
        let max = match max_lines {
            Some(m) => m,
            None => DEFAULT_MAX_LINES,
        };
        PreviewBuilder { max, lines: Vec::new(), total: 0, truncated: false }
    }

    /// Takes in the next line of the file, `None` when it is not valid text.
    /// Such a line ends the preview with `Binary` while lines are still kept;
    /// past the limit it is only counted.
    pub fn push_line(&mut self, line: Option<String>) -> (r: Result<(), PreviewError>)
        requires
            old(self).total < usize::MAX,
        ensures
            final(self).max == old(self).max,
            final(self).total == old(self).total + 1,
            old(self).lines@.len() < old(self).max ==> match line {
                Some(l) => r is Ok && final(self).lines@ == old(self).lines@.push(l)
                    && final(self).truncated == old(self).truncated,
                None => r matches Err(PreviewError::Binary) && final(self).lines@ == old(self).lines@
                    && final(self).truncated == old(self).truncated,
            },
            old(self).lines@.len() >= old(self).max ==> r is Ok && final(self).lines@
                == old(self).lines@ && final(self).truncated,
    {
        self.total = self.total + 1;
        if self.lines.len() < self.max {
            match line {
                Some(l) => {
                    self.lines.push(l);
                    Ok(())
                },
                None => Err(PreviewError::Binary),
            }
        } else {
            self.truncated = true;
            Ok(())
        }
    }

    /// The preview: the kept lines joined by newlines.
    pub fn finish(self) -> (r: FilePreviewResult)
        ensures
            r.content@ == join_lines_spec(self.lines@.map_values(|l: String| l@)),
            r.line_count == self.total,
            r.is_truncated == self.truncated,
    {
        let ghost views = self.lines@.map_values(|l: String| l@);
        let mut content = String::new();
        let mut i: usize = 0;
        while i < self.lines.len()
            invariant
                i <= self.lines@.len(),
                views == self.lines@.map_values(|l: String| l@),
                content@ == join_lines_spec(views.subrange(0, i as int)),
            decreases self.lines@.len() - i,
        {
            let ghost pre = views.subrange(0, i + 1);
            assert(pre.drop_last() =~= views.subrange(0, i as int));
            if i > 0 {
                push_char(&mut content, '\n');
            } else {
                assert(views.subrange(0, 0).len() == 0);
            }
            content.append(self.lines[i].as_str());
            i = i + 1;
        }
        assert(views.subrange(0, self.lines@.len() as int) =~= views);
        FilePreviewResult { content, line_count: self.total, is_truncated: self.truncated }
    }
}

} // verus!
