use dispatch_sim::catalog::{add_pages, compare_books, give_ownership, Book, Library};

#[test]
fn book_construction_and_growth() {
    let mut book = Book::new("Clean Code", "Robert C. Martin", 464);
    assert_eq!(book.title, "Clean Code");
    assert_eq!(book.author, "Robert C. Martin");
    assert_eq!(book.pages, 464);
    add_pages(&mut book, 36);
    assert_eq!(book.pages, 500);
    assert_eq!(book.title, "Clean Code");
}

#[test]
fn ownership_is_given_with_fixed_contents() {
    let book = give_ownership();
    assert_eq!(book.title, "Rust 编程");
    assert_eq!(book.author, "Steve Klabnik");
    assert_eq!(book.pages, 500);
}

#[test]
fn comparison_goes_by_page_count() {
    let a = Book::new("Clean Code", "Robert C. Martin", 464);
    let b = Book::new("Code Complete", "Steve McConnell", 960);
    assert!(!compare_books(&a, &b));
    assert!(compare_books(&b, &a));
    assert!(!compare_books(&a, &a));
}

#[test]
fn library_lookup_finds_the_first_match() {
    let mut library = Library::new("City Library");
    assert_eq!(library.book_count(), 0);
    assert!(library.find_book("Anything").is_none());

    library.add_book(Book::new("Duplicate", "First Author", 100));
    library.add_book(Book::new("Other", "Someone", 200));
    library.add_book(Book::new("Duplicate", "Second Author", 300));
    assert_eq!(library.book_count(), 3);

    let found = library.find_book("Duplicate").expect("the title is shelved");
    assert_eq!(found.author, "First Author");
    assert_eq!(found.pages, 100);
}

#[test]
fn library_update_touches_only_the_first_match() {
    let mut library = Library::new("City Library");
    library.add_book(Book::new("Duplicate", "First Author", 100));
    library.add_book(Book::new("Duplicate", "Second Author", 300));

    assert!(library.update_book_pages("Duplicate", 150));
    assert_eq!(library.books[0].pages, 150);
    assert_eq!(library.books[0].author, "First Author");
    assert_eq!(library.books[1].pages, 300);

    assert!(!library.update_book_pages("Missing", 999));
    assert_eq!(library.books[0].pages, 150);
    assert_eq!(library.books[1].pages, 300);
}
