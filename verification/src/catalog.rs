//! A small book catalog.
//!
//! Books move by ownership into the library; lookups and updates borrow them.
//! A lookup or update always acts on the first book carrying the given title.

use vstd::prelude::*;

verus! {

/// A book: title, author, and page count.
pub struct Book {
    pub title: String,
    pub author: String,
    pub pages: u32,
}

/// Whether some book in `books` carries `title`.
pub open spec fn has_book_with_title(books: Seq<Book>, title: Seq<char>) -> bool {
    exists|i: int| 0 <= i < books.len() && books[i].title@ == title
}

impl Book {
    /// Builds a book from its title, author, and page count.
    pub fn new(title: &str, author: &str, pages: u32) -> (book: Book)
        ensures
            book.title@ == title@,
            book.author@ == author@,
            book.pages == pages,
    {
        Book { title: title.to_owned(), author: author.to_owned(), pages }
    }
}

/// Hands a freshly created book to the caller.
pub fn give_ownership() -> (book: Book)
    ensures
        book.title@ == "Rust 编程"@,
        book.author@ == "Steve Klabnik"@,
        book.pages == 500,
{
    Book::new("Rust 编程", "Steve Klabnik", 500)
}

/// Decides which of two borrowed books has more pages: true exactly when the
/// first does.
pub fn compare_books(book1: &Book, book2: &Book) -> (first_has_more: bool)
    ensures
        first_has_more == (book1.pages > book2.pages),
{
    book1.pages > book2.pages
}

/// Grows a borrowed book by `additional_pages` pages.
pub fn add_pages(book: &mut Book, additional_pages: u32)
    requires
        old(book).pages + additional_pages <= u32::MAX,
    ensures
        final(book).pages == old(book).pages + additional_pages,
        final(book).title == old(book).title,
        final(book).author == old(book).author,
{
    book.pages = book.pages + additional_pages;
}

/// A named collection of books.
pub struct Library {
    pub books: Vec<Book>,
    pub name: String,
}

impl Library {
    /// An empty library with the given name.
    pub fn new(name: &str) -> (library: Library)
        ensures
            library.books@.len() == 0,
            library.name@ == name@,
    {
        Library { books: Vec::new(), name: name.to_owned() }
    }

    /// Takes ownership of a book and shelves it at the end.
    pub fn add_book(&mut self, book: Book)
        ensures
            final(self).books@ == old(self).books@.push(book),
            final(self).name == old(self).name,
    {
        self.books.push(book);
    }

    /// Borrows the first book carrying `title`, if the library has one.
    pub fn find_book(&self, title: &str) -> (found: Option<&Book>)
        ensures
            (found is Some) <==> has_book_with_title(self.books@, title@),
            found matches Some(book) ==> exists|i: int|
                {
                    &&& 0 <= i < self.books@.len()
                    &&& *book == self.books@[i]
                    &&& self.books@[i].title@ == title@
                    &&& forall|j: int| 0 <= j < i ==> self.books@[j].title@ != title@
                },
    {
        let wanted = title.to_owned();
        let n = self.books.len();
        let mut k: usize = 0;
        while k < n
            invariant
                n == self.books@.len(),
                k <= n,
                wanted@ == title@,
                forall|j: int| 0 <= j < k ==> self.books@[j].title@ != title@,
            decreases n - k,
        {
            if self.books[k].title == wanted {
                return Some(&self.books[k]);
            }
            k = k + 1;
        }
        None
    }

    /// Sets the page count of the first book carrying `title`, if the
    /// library has one, and says whether it did.  Nothing else changes.
    pub fn update_book_pages(&mut self, title: &str, new_pages: u32) -> (updated: bool)
        ensures
            final(self).name == old(self).name,
            updated <==> has_book_with_title(old(self).books@, title@),
            !updated ==> *final(self) == *old(self),
            updated ==> exists|i: int|
                {
                    &&& 0 <= i < old(self).books@.len()
                    &&& old(self).books@[i].title@ == title@
                    &&& (forall|j: int| 0 <= j < i ==> old(self).books@[j].title@ != title@)
                    &&& final(self).books@ == old(self).books@.update(
                        i,
                        (Book {
                            title: old(self).books@[i].title,
                            author: old(self).books@[i].author,
                            pages: new_pages,
                        }),
                    )
                },
    {
        let wanted = title.to_owned();
        let n = self.books.len();
        let mut k: usize = 0;
        while k < n
            invariant
                n == self.books@.len(),
                k <= n,
                wanted@ == title@,
                *self == *old(self),
                forall|j: int| 0 <= j < k ==> self.books@[j].title@ != title@,
            decreases n - k,
        {
            if self.books[k].title == wanted {
                let book = &mut self.books[k];
                book.pages = new_pages;
                return true;
            }
            k = k + 1;
        }
        false
    }

    /// How many books the library holds.
    pub fn book_count(&self) -> (count: usize)
        ensures
            count == self.books@.len(),
    {
        self.books.len()
    }
}

} // verus!
