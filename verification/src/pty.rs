//! The pseudo-terminal's lifecycle: what is spawned in it, which of its
//! handles have been handed out, and what can go wrong.

use vstd::prelude::*;

verus! {

/// Why an operation on the pseudo-terminal failed; the cause is given as
/// text.
#[derive(Debug, Clone, PartialEq, Eq)]
pub enum PtyError {
    OpenPty(String),
    SpawnCommand(String),
    CloneReader(String),
    TakeWriter(String),
    Resize(String),
    Wait(String),
}

impl PtyError {
    /// The cause of the error.
    pub open spec fn cause(self) -> Seq<char> {
        match self {
            PtyError::OpenPty(cause) => cause@,
            PtyError::SpawnCommand(cause) => cause@,
            PtyError::CloneReader(cause) => cause@,
            PtyError::TakeWriter(cause) => cause@,
            PtyError::Resize(cause) => cause@,
            PtyError::Wait(cause) => cause@,
        }
    }

    /// What failed, without the cause.
    pub open spec fn headline(self) -> Seq<char> {
        match self {
            PtyError::OpenPty(_) => "failed to open pty: "@,
            PtyError::SpawnCommand(_) => "failed to spawn command: "@,
            PtyError::CloneReader(_) => "failed to clone reader: "@,
            PtyError::TakeWriter(_) => "failed to take writer: "@,
            PtyError::Resize(_) => "failed to resize pty: "@,
            PtyError::Wait(_) => "failed to wait for child: "@,
        }
    }

    /// A description of the error: what failed, then the cause.
    pub fn message(&self) -> (text: String)
        ensures
            text@ == self.headline() + self.cause(),
    {
        let (headline, cause) = match self {
            PtyError::OpenPty(cause) => ("failed to open pty: ", cause),
            PtyError::SpawnCommand(cause) => ("failed to spawn command: ", cause),
            PtyError::CloneReader(cause) => ("failed to clone reader: ", cause),
            PtyError::TakeWriter(cause) => ("failed to take writer: ", cause),
            PtyError::Resize(cause) => ("failed to resize pty: ", cause),
            PtyError::Wait(cause) => ("failed to wait for child: ", cause),
        };
        let mut text = headline.to_owned();
        text.append(cause.as_str());
        text
    }
}

/// The size of a pseudo-terminal. The pixel dimensions are not used and
/// stay zero.
#[derive(Debug, Clone, Copy, PartialEq, Eq, Structural)]
pub struct PtyDimensions {
    pub rows: u16,
    pub cols: u16,
    pub pixel_width: u16,
    pub pixel_height: u16,
}

/// The size of a pseudo-terminal of `rows` rows and `cols` columns.
pub fn dimensions(rows: u16, cols: u16) -> (size: PtyDimensions)
    ensures
        size == (PtyDimensions { rows, cols, pixel_width: 0, pixel_height: 0 }),
{
    PtyDimensions { rows, cols, pixel_width: 0, pixel_height: 0 }
}

/// The command that runs in the pseudo-terminal: a program, its arguments,
/// and the terminal type that it is told.
#[derive(Debug, Clone, PartialEq, Eq)]
pub struct ShellCommand {
    pub program: String,
    pub args: Vec<String>,
    pub term: String,
}

/// The shell to spawn, from what the environment names as shell and as
/// terminal type: the named shell, or `/bin/sh`; always with `-i`, since a
/// pseudo-terminal alone does not make every shell interactive; and the
/// named terminal type, or `xterm-256color`.
pub fn shell_command(shell: Option<String>, term: Option<String>) -> (command: ShellCommand)
    ensures
        command.program@ == match shell {
            Some(name) => name@,
            None => "/bin/sh"@,
        },
        command.args@.len() == 1,
        command.args@[0]@ == "-i"@,
        command.term@ == match term {
            Some(name) => name@,
            None => "xterm-256color"@,
        },
{
    let program = match shell {
        Some(name) => name,
        None => "/bin/sh".to_owned(),
    };
    let term = match term {
        Some(name) => name,
        None => "xterm-256color".to_owned(),
    };
    let mut args: Vec<String> = Vec::new();
    args.push("-i".to_owned());
    ShellCommand { program, args, term }
}

/// Which handles of a pseudo-terminal are still to be had, as a
/// mathematical value.
pub struct HandlesModel {
    pub reader_taken: bool,
    pub writer_taken: bool,
    pub child_taken: bool,
    pub size: (u16, u16),
}

impl HandlesModel {
    /// The ledger once the reader has been asked for.
    pub open spec fn took_reader(self) -> HandlesModel {
        HandlesModel { reader_taken: true, ..self }
    }

    /// The ledger once the writer has been asked for.
    pub open spec fn took_writer(self) -> HandlesModel {
        HandlesModel { writer_taken: true, ..self }
    }

    /// The ledger once the child has been asked for.
    pub open spec fn took_child(self) -> HandlesModel {
        HandlesModel { child_taken: true, ..self }
    }

    /// The ledger with a new size.
    pub open spec fn resized(self, rows: u16, cols: u16) -> HandlesModel {
        HandlesModel { size: (rows, cols), ..self }
    }
}

/// A pseudo-terminal's ledger: its size as rows and columns, and which of
/// its single-use handles have been handed out. The reader goes to the
/// output pump, the writer to the input pump, and the child to the monitor;
/// each at most once.
#[derive(Debug, Clone, Copy, PartialEq, Eq)]
pub struct Pty {
    reader_taken: bool,
    writer_taken: bool,
    child_taken: bool,
    rows: u16,
    cols: u16,
}

impl View for Pty {
    type V = HandlesModel;

    closed spec fn view(&self) -> HandlesModel {
        HandlesModel {
            reader_taken: self.reader_taken,
            writer_taken: self.writer_taken,
            child_taken: self.child_taken,
            size: (self.rows, self.cols),
        }
    }
}

impl Pty {
    /// The ledger of a pseudo-terminal that was just spawned: every handle
    /// is still to be had.
    pub fn spawn(rows: u16, cols: u16) -> (pty: Pty)
        ensures
            pty@ == (HandlesModel {
                reader_taken: false,
                writer_taken: false,
                child_taken: false,
                size: (rows, cols),
            }),
    {
        Pty { reader_taken: false, writer_taken: false, child_taken: false, rows, cols }
    }

    /// The size as rows and columns.
    pub fn size(&self) -> (size: (u16, u16))
        ensures
            size == self@.size,
    {
        (self.rows, self.cols)
    }

    /// Hands out the reader: the first time, and never again.
    pub fn take_reader(&mut self) -> (result: Result<(), PtyError>)
        ensures
            result is Ok <==> !old(self)@.reader_taken,
            result is Err ==> result->Err_0 is CloneReader && result->Err_0.cause()
                == "reader already taken"@,
            final(self)@ == old(self)@.took_reader(),
    {
        if self.reader_taken {
            return Err(PtyError::CloneReader("reader already taken".to_owned()));
        }
        self.reader_taken = true;
        Ok(())
    }

    /// Hands out the writer: the first time, and never again.
    pub fn take_writer(&mut self) -> (result: Result<(), PtyError>)
        ensures
            result is Ok <==> !old(self)@.writer_taken,
            result is Err ==> result->Err_0 is TakeWriter && result->Err_0.cause()
                == "writer already taken"@,
            final(self)@ == old(self)@.took_writer(),
    {
        if self.writer_taken {
            return Err(PtyError::TakeWriter("writer already taken".to_owned()));
        }
        self.writer_taken = true;
        Ok(())
    }

    /// Hands out the child: the first time. A second call yields nothing.
    pub fn take_child(&mut self) -> (taken: Option<()>)
        ensures
            taken is Some <==> !old(self)@.child_taken,
            final(self)@ == old(self)@.took_child(),
    {
        if self.child_taken {
            return None;
        }
        self.child_taken = true;
        Some(())
    }

    /// Records a new size.
    pub fn resize(&mut self, rows: u16, cols: u16) -> (size: PtyDimensions)
        ensures
            size == (PtyDimensions { rows, cols, pixel_width: 0, pixel_height: 0 }),
            final(self)@ == old(self)@.resized(rows, cols),
    {
        self.rows = rows;
        self.cols = cols;
        dimensions(rows, cols)
    }

    /// Whether the child can be waited for here: only while it has not
    /// been handed out.
    pub fn wait(&self) -> (result: Result<(), PtyError>)
        ensures
            result is Ok <==> !self@.child_taken,
            result is Err ==> result->Err_0 is Wait && result->Err_0.cause()
                == "child already taken"@,
    {
        if self.child_taken {
            Err(PtyError::Wait("child already taken".to_owned()))
        } else {
            Ok(())
        }
    }
}

/// Each handle is handed out at most once: once a handle has been asked
/// for, it counts as taken, and asking for the others or resizing does not
/// bring it back.
pub proof fn lemma_handles_taken_once(ledger: HandlesModel, rows: u16, cols: u16)
    ensures
        ledger.took_reader().reader_taken,
        ledger.took_writer().writer_taken,
        ledger.took_child().child_taken,
        ledger.reader_taken ==> ledger.took_writer().reader_taken
            && ledger.took_child().reader_taken && ledger.resized(rows, cols).reader_taken,
        ledger.writer_taken ==> ledger.took_reader().writer_taken
            && ledger.took_child().writer_taken && ledger.resized(rows, cols).writer_taken,
        ledger.child_taken ==> ledger.took_reader().child_taken
            && ledger.took_writer().child_taken && ledger.resized(rows, cols).child_taken,
{
}

} // verus!
