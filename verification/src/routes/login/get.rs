use vstd::prelude::*;
use vstd::string::StringExecFns;

verus! {

/// The login page up to the place of the messages.
pub const LOGIN_PAGE_HEAD: &'static str = "<!DOCTYPE html>
<html lang=\"en\">
<head>
    <meta http-equiv=\"content-type\" content=\"text/html; charset=utf-8\">
    <title>Login</title>
</head>
<body>
    ";

/// The login page from the place of the messages on.
pub const LOGIN_PAGE_TAIL: &'static str = "
    <form action=\"/login\" method=\"post\">
        <label>Username
            <input
                type=\"text\"
                placeholder=\"Enter Username\"
                name=\"username\"
            >
        </label>
        <label>Password
            <input
                type=\"password\"
                placeholder=\"Enter Password\"
                name=\"password\"
            >
        </label>
        <button type=\"submit\">Login</button>
    </form>
</body>
</html>";

/// The messages as HTML: each in a paragraph of its own, in italics, on
/// a line of its own.
pub open spec fn messages_html(messages: Seq<Seq<char>>) -> Seq<char>
    decreases messages.len(),
{
    if messages.len() == 0 {
        Seq::empty()
    } else {
        messages_html(messages.drop_last()) + "<p><i>"@ + messages.last() + "</i></p>\n"@
    }
}

/// The login page with the flash messages of the request shown above the
/// form, in the order in which they came.
pub fn login_form(flash_messages: &Vec<String>) -> (page: String)
    ensures
        page@ == LOGIN_PAGE_HEAD@ + messages_html(flash_messages@.map_values(|m: String| m@))
            + LOGIN_PAGE_TAIL@,
{
    let ghost all = flash_messages@.map_values(|m: String| m@);
    let mut error_html = String::new();
    let mut i: usize = 0;
    proof {
        assert(all.take(0) == Seq::<Seq<char>>::empty());
    }
    while i < flash_messages.len()
        invariant
            i <= flash_messages.len(),
            all == flash_messages@.map_values(|m: String| m@),
            error_html@ == messages_html(all.take(i as int)),
        decreases flash_messages.len() - i,
    {
        proof {
            assert(all.take(i + 1).drop_last() == all.take(i as int));
            assert(all.take(i + 1).last() == flash_messages@[i as int]@);
        }
        error_html.append("<p><i>");
        error_html.append(flash_messages[i].as_str());
        error_html.append("</i></p>\n");
        i += 1;
    }
    proof {
        assert(all.take(i as int) == all);
    }
    String::from_str(LOGIN_PAGE_HEAD).concat(error_html.as_str()).concat(LOGIN_PAGE_TAIL)
}

} // verus!
