use crate::database::Database;
use vstd::prelude::*;

verus! {

/// The tag that every export document carries as its source.
pub const SOURCE: &'static str = "completionist_archiver";

/// The build that produced the export documents.
pub const BUILD: &'static str = "0.1.0";

/// The schema version of the export document.
pub const EXPORT_VERSION: u32 = 3;

/// The progress of a quest as the game reports it.
#[derive(Debug, Clone, Copy, PartialEq, Eq, Structural)]
pub enum QuestStatus {
    Unset,
    Doing,
    Finished,
    Closed,
    Deleted,
}

/// One quest of a quest data response.
#[derive(Debug, Clone, Copy, PartialEq, Eq, Structural)]
pub struct Quest {
    pub id: u32,
    pub status: QuestStatus,
}

/// One item of an inventory response.
#[derive(Debug, Clone, Copy, PartialEq, Eq, Structural)]
pub struct Material {
    pub tid: u32,
}

/// The payload of a command did not decode as the schema of its kind.
#[derive(Debug, Clone, Copy, PartialEq, Eq, Structural)]
pub struct SchemaMismatch;

/// A decoded game command, tagged by its kind.
#[derive(Debug)]
pub enum Command {
    /// The token response, which carries the account identifier.
    Token(Result<u32, SchemaMismatch>),
    /// The inventory response, with its materials.
    Inventory(Result<Vec<Material>, SchemaMismatch>),
    /// The quest data response, with its quests.
    Quests(Result<Vec<Quest>, SchemaMismatch>),
    /// Any other command, by its command identifier.
    Other(u16),
}

/// An accepted achievement.
#[derive(Debug, Clone, Copy, PartialEq, Eq, Structural)]
pub struct Achievement {
    pub id: u32,
}

/// An accepted book.
#[derive(Debug, Clone, Copy, PartialEq, Eq, Structural)]
pub struct Book {
    pub id: u32,
}

/// The account block of an export document.
#[derive(Debug, Clone, Copy, PartialEq, Eq, Structural)]
pub struct Metadata {
    pub uid: Option<u32>,
}

/// The export document.
#[derive(Debug)]
pub struct Export {
    pub source: &'static str,
    pub build: &'static str,
    pub version: u32,
    pub metadata: Metadata,
    pub achievements: Vec<u32>,
    pub books: Vec<u32>,
}

/// A quest status after which the quest no longer changes.
pub open spec fn is_terminal(status: QuestStatus) -> bool {
    status == QuestStatus::Closed || status == QuestStatus::Finished
}

/// Whether a quest counts as an unlocked achievement under the reference
/// identifiers `refs`.
pub open spec fn achievement_accepted(refs: Seq<u32>, quest: Quest) -> bool {
    is_terminal(quest.status) && refs.contains(quest.id)
}

/// The identifiers of the accepted quests, in order.
pub open spec fn accepted_achievements(refs: Seq<u32>, quests: Seq<Quest>) -> Seq<u32>
    decreases quests.len(),
{
    if quests.len() == 0 {
        seq![]
    } else {
        let prev = accepted_achievements(refs, quests.drop_last());
        if achievement_accepted(refs, quests.last()) {
            prev.push(quests.last().id)
        } else {
            prev
        }
    }
}

/// The identifiers of the materials that are reference books, in order.
pub open spec fn accepted_books(refs: Seq<u32>, materials: Seq<Material>) -> Seq<u32>
    decreases materials.len(),
{
    if materials.len() == 0 {
        seq![]
    } else {
        let prev = accepted_books(refs, materials.drop_last());
        if refs.contains(materials.last().tid) {
            prev.push(materials.last().tid)
        } else {
            prev
        }
    }
}

/// Checks a quest against the reference achievements.
pub fn export_proto_achievement(db: &Database, proto: &Quest) -> (r: Option<Achievement>)
    ensures
        r == (if achievement_accepted(db.achievement_ids(), *proto) {
            Some(Achievement { id: proto.id })
        } else {
            None
        }),
{
    let terminal = proto.status == QuestStatus::Closed || proto.status == QuestStatus::Finished;
    if terminal && db.has_achievement(proto.id) {
        Some(Achievement { id: proto.id })
    } else {
        None
    }
}

/// Checks a material against the reference books.
pub fn export_proto_book(db: &Database, proto: &Material) -> (r: Option<Book>)
    ensures
        r == (if db.book_ids().contains(proto.tid) {
            Some(Book { id: proto.tid })
        } else {
            None
        }),
{
    if db.has_book(proto.tid) {
        Some(Book { id: proto.tid })
    } else {
        None
    }
}


/// What an exporter has collected so far.
pub struct ExporterView {
    pub uid: Option<u32>,
    pub achievements: Seq<u32>,
    pub books: Seq<u32>,
}

/// The state after an exporter that checks against `db` reads `command` in
/// state `s`.
pub open spec fn step(db: Database, s: ExporterView, command: Command) -> ExporterView {
    match command {
        Command::Token(Ok(uid)) => ExporterView {
            uid: Some(uid),
            achievements: s.achievements,
            books: s.books,
        },
        Command::Inventory(Ok(materials)) => ExporterView {
            uid: s.uid,
            achievements: s.achievements,
            books: s.books + accepted_books(db.book_ids(), materials@),
        },
        Command::Quests(Ok(quests)) => ExporterView {
            uid: s.uid,
            achievements: s.achievements + accepted_achievements(db.achievement_ids(), quests@),
            books: s.books,
        },
        _ => s,
    }
}

/// Whether all three kinds of data have been seen.
pub open spec fn is_ready(s: ExporterView) -> bool {
    s.uid.is_some() && s.achievements.len() > 0 && s.books.len() > 0
}

/// A command of any kind other than token, inventory and quest data leaves
/// what the exporter has collected unchanged.
pub proof fn lemma_other_commands_ignored(db: Database, s: ExporterView, command_id: u16)
    ensures
        step(db, s, Command::Other(command_id)) == s,
{
}

/// Reading the same quest data twice, with one accepted quest in it, appends
/// that quest's identifier twice: identifiers are not deduplicated.
pub proof fn lemma_repeated_achievement_kept_twice(
    db: Database,
    s: ExporterView,
    quests: Vec<Quest>,
    quest: Quest,
)
    requires
        quests@ == seq![quest],
        achievement_accepted(db.achievement_ids(), quest),
    ensures
        step(db, step(db, s, Command::Quests(Ok(quests))), Command::Quests(Ok(quests))).achievements
            == s.achievements + seq![quest.id, quest.id],
{
    assert(quests@.drop_last() =~= Seq::<Quest>::empty());
    reveal_with_fuel(accepted_achievements, 2);
    assert(accepted_achievements(db.achievement_ids(), quests@) =~= seq![quest.id]);
    assert(s.achievements + seq![quest.id] + seq![quest.id] =~= s.achievements + seq![
        quest.id,
        quest.id,
    ]);
}

/// Reading the same inventory twice, with one reference book in it, appends
/// that book's identifier twice: identifiers are not deduplicated.
pub proof fn lemma_repeated_book_kept_twice(
    db: Database,
    s: ExporterView,
    materials: Vec<Material>,
    material: Material,
)
    requires
        materials@ == seq![material],
        db.book_ids().contains(material.tid),
    ensures
        step(db, step(db, s, Command::Inventory(Ok(materials))), Command::Inventory(Ok(materials))).books
            == s.books + seq![material.tid, material.tid],
{
    assert(materials@.drop_last() =~= Seq::<Material>::empty());
    reveal_with_fuel(accepted_books, 2);
    assert(accepted_books(db.book_ids(), materials@) =~= seq![material.tid]);
    assert(s.books + seq![material.tid] + seq![material.tid] =~= s.books + seq![
        material.tid,
        material.tid,
    ]);
}

/// Every accepted achievement identifier is a reference identifier.
pub proof fn lemma_accepted_achievements_known(refs: Seq<u32>, quests: Seq<Quest>)
    ensures
        forall|i: int|
            0 <= i < accepted_achievements(refs, quests).len() ==> refs.contains(
                #[trigger] accepted_achievements(refs, quests)[i],
            ),
    decreases quests.len(),
{
    if quests.len() > 0 {
        let prev = quests.drop_last();
        lemma_accepted_achievements_known(refs, prev);
        assert forall|i: int| 0 <= i < accepted_achievements(refs, quests).len() implies refs.contains(
            #[trigger] accepted_achievements(refs, quests)[i],
        ) by {
            if i < accepted_achievements(refs, prev).len() {
                assert(accepted_achievements(refs, quests)[i] == accepted_achievements(refs, prev)[i]);
            }
        }
    }
}

/// Every accepted book identifier is a reference identifier.
pub proof fn lemma_accepted_books_known(refs: Seq<u32>, materials: Seq<Material>)
    ensures
        forall|i: int|
            0 <= i < accepted_books(refs, materials).len() ==> refs.contains(
                #[trigger] accepted_books(refs, materials)[i],
            ),
    decreases materials.len(),
{
    if materials.len() > 0 {
        let prev = materials.drop_last();
        lemma_accepted_books_known(refs, prev);
        assert forall|i: int| 0 <= i < accepted_books(refs, materials).len() implies refs.contains(
            #[trigger] accepted_books(refs, materials)[i],
        ) by {
            if i < accepted_books(refs, prev).len() {
                assert(accepted_books(refs, materials)[i] == accepted_books(refs, prev)[i]);
            }
        }
    }
}

/// Whether every collected identifier is a reference identifier of `db`.
pub open spec fn all_known(db: Database, s: ExporterView) -> bool {
    &&& forall|i: int|
        0 <= i < s.achievements.len() ==> db.achievement_ids().contains(#[trigger] s.achievements[i])
    &&& forall|i: int| 0 <= i < s.books.len() ==> db.book_ids().contains(#[trigger] s.books[i])
}

/// Reading a command never collects an identifier that is not a reference
/// identifier.
pub proof fn lemma_step_keeps_known(db: Database, s: ExporterView, command: Command)
    requires
        all_known(db, s),
    ensures
        all_known(db, step(db, s, command)),
{
    let t = step(db, s, command);
    match command {
        Command::Inventory(Ok(materials)) => {
            let added = accepted_books(db.book_ids(), materials@);
            lemma_accepted_books_known(db.book_ids(), materials@);
            assert forall|i: int| 0 <= i < t.books.len() implies db.book_ids().contains(
                #[trigger] t.books[i],
            ) by {
                if i >= s.books.len() {
                    assert(t.books[i] == added[i - s.books.len()]);
                }
            }
        },
        Command::Quests(Ok(quests)) => {
            let added = accepted_achievements(db.achievement_ids(), quests@);
            lemma_accepted_achievements_known(db.achievement_ids(), quests@);
            assert forall|i: int| 0 <= i < t.achievements.len() implies db.achievement_ids().contains(
                #[trigger] t.achievements[i],
            ) by {
                if i >= s.achievements.len() {
                    assert(t.achievements[i] == added[i - s.achievements.len()]);
                }
            }
        },
        _ => {},
    }
}

/// Collects the account identifier and the accepted achievements and books
/// from a stream of commands.
pub struct OptimizerExporter {
    database: Database,
    uid: Option<u32>,
    achievements: Vec<u32>,
    books: Vec<u32>,
}

impl View for OptimizerExporter {
    type V = ExporterView;

    closed spec fn view(&self) -> ExporterView {
        ExporterView { uid: self.uid, achievements: self.achievements@, books: self.books@ }
    }
}

impl OptimizerExporter {
    /// The reference data that the exporter checks against.
    pub closed spec fn db(&self) -> Database {
        self.database
    }

    pub fn new(database: Database) -> (r: OptimizerExporter)
        ensures
            r.db() == database,
            r@.uid is None,
            r@.achievements == Seq::<u32>::empty(),
            r@.books == Seq::<u32>::empty(),
            all_known(r.db(), r@),
    {
        OptimizerExporter { database, uid: None, achievements: vec![], books: vec![] }
    }

    /// Records the account identifier, replacing any earlier one.
    pub fn set_uid(&mut self, uid: u32)
        ensures
            final(self)@.uid == Some(uid),
            final(self)@.achievements == old(self)@.achievements,
            final(self)@.books == old(self)@.books,
            final(self).db() == old(self).db(),
    {
        self.uid = Some(uid);
    }

    /// Appends the materials that are reference books to the books.
    pub fn add_inventory(&mut self, materials: Vec<Material>)
        ensures
            final(self)@.uid == old(self)@.uid,
            final(self)@.achievements == old(self)@.achievements,
            final(self)@.books == old(self)@.books + accepted_books(
                old(self).db().book_ids(),
                materials@,
            ),
            final(self).db() == old(self).db(),
    {
        let mut i: usize = 0;
        while i < materials.len()
            invariant
                i <= materials.len(),
                self.database == old(self).database,
                self.uid == old(self).uid,
                self.achievements@ == old(self).achievements@,
                self.books@ == old(self).books@ + accepted_books(
                    self.database.book_ids(),
                    materials@.take(i as int),
                ),
            decreases materials.len() - i,
        {
            assert(materials@.take(i + 1).drop_last() =~= materials@.take(i as int));
            if let Some(book) = export_proto_book(&self.database, &materials[i]) {
                self.books.push(book.id);
            }
            i = i + 1;
        }
        assert(materials@.take(materials.len() as int) =~= materials@);
    }

    /// Appends the quests that are unlocked reference achievements to the
    /// achievements.
    pub fn add_achievements(&mut self, quests: Vec<Quest>)
        ensures
            final(self)@.uid == old(self)@.uid,
            final(self)@.books == old(self)@.books,
            final(self)@.achievements == old(self)@.achievements + accepted_achievements(
                old(self).db().achievement_ids(),
                quests@,
            ),
            final(self).db() == old(self).db(),
    {
        let mut i: usize = 0;
        while i < quests.len()
            invariant
                i <= quests.len(),
                self.database == old(self).database,
                self.uid == old(self).uid,
                self.books@ == old(self).books@,
                self.achievements@ == old(self).achievements@ + accepted_achievements(
                    self.database.achievement_ids(),
                    quests@.take(i as int),
                ),
            decreases quests.len() - i,
        {
            assert(quests@.take(i + 1).drop_last() =~= quests@.take(i as int));
            if let Some(achievement) = export_proto_achievement(&self.database, &quests[i]) {
                self.achievements.push(achievement.id);
            }
            i = i + 1;
        }
        assert(quests@.take(quests.len() as int) =~= quests@);
    }

    /// Reads one decoded command: a token sets the account identifier, an
    /// inventory adds books, quest data adds achievements. A command whose
    /// payload did not decode, and a command of any other kind, changes
    /// nothing.
    pub fn read_command(&mut self, command: Command)
        ensures
            final(self)@ == step(old(self).db(), old(self)@, command),
            final(self).db() == old(self).db(),
    {
        match command {
            Command::Token(Ok(uid)) => self.set_uid(uid),
            Command::Inventory(Ok(materials)) => self.add_inventory(materials),
            Command::Quests(Ok(quests)) => self.add_achievements(quests),
            _ => {},
        }
    }

    /// Whether the account identifier, an achievement and a book have all
    /// been seen.
    pub fn is_finished(&self) -> (r: bool)
        ensures
            r == is_ready(self@),
    {
        self.uid.is_some() && self.achievements.len() > 0 && self.books.len() > 0
    }

    /// Ends the collection and builds the export document, whether or not
    /// everything has been seen.
    pub fn export(self) -> (r: Export)
        ensures
            r.source == SOURCE,
            r.build == BUILD,
            r.version == 3,
            r.metadata.uid == self@.uid,
            r.achievements@ == self@.achievements,
            r.books@ == self@.books,
    {
        Export {
            source: SOURCE,
            build: BUILD,
            version: EXPORT_VERSION,
            metadata: Metadata { uid: self.uid },
            achievements: self.achievements,
            books: self.books,
        }
    }
}

} // verus!
