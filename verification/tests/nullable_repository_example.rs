//! A more involved example: testing a repository component without mocks by
//! giving it a nulled low-level database access and an output tracker.

use output_tracker::non_threadsafe::Error as OtError;
use output_tracker::non_threadsafe::OutputSubject;
use output_tracker::non_threadsafe::OutputTracker;

struct NewTodo {
    subject: String,
}

#[derive(Debug)]
struct DbError {
    #[allow(dead_code)]
    message: String,
}

#[derive(Debug, Clone, PartialEq, Eq)]
struct TodoEntity {
    subject: String,
}

/// An example of a minimal repository holding to-do items.
struct TodoRepository {
    db: Box<dyn DbAccess>,
    todo_subject: OutputSubject<TodoEntity>,
}

impl TodoRepository {
    fn nulled() -> Self {
        Self { db: Box::new(NulledDb), todo_subject: OutputSubject::new() }
    }

    fn track_todos(&self) -> Result<OutputTracker<TodoEntity>, OtError> {
        self.todo_subject.create_tracker()
    }

    fn insert(&self, new_todo: NewTodo) -> Result<(), DbError> {
        let todo_entity = TodoEntity { subject: new_todo.subject };

        // any code before and after this call to `self.db.insert_todo` is
        // exercised even with the nulled variant of the repository
        let result = self.db.insert_todo(todo_entity.clone());

        result.inspect(|()| {
            _ = self.todo_subject.emit(todo_entity);
        })
    }
}

/// The lowest level of access to the database.
trait DbAccess {
    fn insert_todo(&self, todo_entity: TodoEntity) -> Result<(), DbError>;
}

/// Database access that touches no database: the nulled variant.
struct NulledDb;

impl DbAccess for NulledDb {
    fn insert_todo(&self, _todo_entity: TodoEntity) -> Result<(), DbError> {
        Ok(())
    }
}

#[test]
fn insert_new_todo_item_into_repository() {
    let todo_repo = TodoRepository::nulled();

    let todo_tracker = todo_repo
        .track_todos()
        .unwrap_or_else(|err| panic!("could not create todo tracker: {err:?}"));

    let inserted = todo_repo.insert(NewTodo { subject: "remember the milk".into() });

    assert!(inserted.is_ok());

    let inserted_todos = todo_tracker
        .output()
        .unwrap_or_else(|err| panic!("could not read output of todo tracker: {err:?}"));

    assert_eq!(inserted_todos, vec![TodoEntity { subject: "remember the milk".into() }]);
}
